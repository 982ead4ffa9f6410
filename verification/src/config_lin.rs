//! The start-up modes and the service configuration that each resolves to.

use vstd::prelude::*;
use vstd::string::*;
use crate::address::IpAddress;
use crate::errors::{ContextualError, Failure};
use crate::text::{debug_form, debug_text, decimal_text, join, joined, push_decimal};

verus! {

/// The port of the default configuration.
pub const DEFAULT_PORT: u16 = 8136;

/// The fully resolved configuration of the service: where it listens and
/// what it serves. A value of this type never holds a placeholder: there
/// is at least one interface, and the port is not 0.
#[derive(Debug)]
pub struct LinConfig {
    interfaces: Vec<IpAddress>,
    port: u16,
    path: String,
}

/// A configuration as a value of mathematics.
pub struct ConfigModel {
    /// The interfaces to listen on, in the order in which they were given.
    pub interfaces: Seq<IpAddress>,
    /// The port to listen on.
    pub port: u16,
    /// The directory to serve.
    pub path: Seq<char>,
}

impl ConfigModel {
    /// No field holds a placeholder: there is an interface, and the port
    /// is not the "any port" value 0.
    pub open spec fn is_resolved(self) -> bool {
        self.interfaces.len() > 0 && self.port != 0
    }
}

/// How the service is asked to start.
#[derive(Debug)]
pub enum CliMod {
    /// Interfaces, port and path are given. No interface means every
    /// interface, port 0 means any free port, no path means the directory
    /// of `explicit_default_path`.
    Client { interfaces: Vec<IpAddress>, port: u16, path: Option<String> },
    /// Configuration files are named. Their content is not read.
    YmlConf { file: Vec<String> },
    /// Nothing is given.
    Default,
}

/// A start-up request as a value of mathematics.
pub enum ModeModel {
    Client { interfaces: Seq<IpAddress>, port: u16, path: Option<Seq<char>> },
    YmlConf { file: Seq<Seq<char>> },
    Default,
}

impl View for CliMod {
    type V = ModeModel;

    open spec fn view(&self) -> ModeModel {
        match *self {
            CliMod::Client { interfaces, port, path } => ModeModel::Client {
                interfaces: interfaces@,
                port,
                path: match path {
                    Some(p) => Some(p@),
                    None => None,
                },
            },
            CliMod::YmlConf { file } => ModeModel::YmlConf { file: file.deep_view() },
            CliMod::Default => ModeModel::Default,
        }
    }
}

/// The interfaces that stand for "listen everywhere": the IPv6 wildcard
/// `::`, then the IPv4 wildcard `0.0.0.0`.
pub open spec fn default_interfaces() -> Seq<IpAddress> {
    seq![IpAddress::V6([0, 0, 0, 0, 0, 0, 0, 0]), IpAddress::V4([0, 0, 0, 0])]
}

/// The directory that is served where nothing at all was asked for.
pub open spec fn default_path() -> Seq<char> {
    "./lin_home"@
}

/// The directory that is served where interfaces or a port were given but
/// no path.
pub open spec fn explicit_default_path() -> Seq<char> {
    "./linc_home"@
}

/// The configuration of a service that was asked for nothing in
/// particular.
pub open spec fn default_model() -> ConfigModel {
    ConfigModel { interfaces: default_interfaces(), port: DEFAULT_PORT, path: default_path() }
}

/// The interfaces to listen on: those that were given, unchanged, or the
/// default pair where none was.
pub open spec fn normalized_interfaces(given: Seq<IpAddress>) -> Seq<IpAddress> {
    if given.len() == 0 {
        default_interfaces()
    } else {
        given
    }
}

/// The port to listen on: the requested one unless it is 0; for 0 the
/// port that the system offered, if it offered one that can be used.
pub open spec fn resolved_port(requested: u16, offered: Option<u16>) -> Option<u16> {
    if requested != 0 {
        Some(requested)
    } else {
        match offered {
            Some(port) => if port != 0 {
                Some(port)
            } else {
                None
            },
            None => None,
        }
    }
}

/// The directory to serve: the given one, or `fallback` where none was.
pub open spec fn resolved_path(given: Option<Seq<char>>, fallback: Seq<char>) -> Seq<char> {
    match given {
        Some(path) => path,
        None => fallback,
    }
}

/// What a request resolves to when the system's offer of a free port is
/// `offered`. The offer counts only for a `Client` request with port 0.
pub open spec fn resolution(mode: ModeModel, offered: Option<u16>) -> Result<ConfigModel, Failure> {
    match mode {
        ModeModel::Client { interfaces, port, path } => match resolved_port(port, offered) {
            Some(port) => Ok(
                ConfigModel {
                    interfaces: normalized_interfaces(interfaces),
                    port,
                    path: resolved_path(path, explicit_default_path()),
                },
            ),
            None => Err(Failure::PortAllocation),
        },
        _ => Ok(default_model()),
    }
}

/// The texts of the interfaces, in their order.
pub open spec fn interface_texts(interfaces: Seq<IpAddress>) -> Seq<Seq<char>> {
    Seq::new(interfaces.len(), |i: int| interfaces[i].text())
}

/// A configuration in words, line by line, with the path written as
/// `path_shown`: the interfaces in square brackets with a comma and a
/// space between them, the port, the path, and that the service starts.
pub open spec fn summary_lines_with(config: ConfigModel, path_shown: Seq<char>) -> Seq<Seq<char>> {
    seq![
        "\tinterfaces ["@ + joined(interface_texts(config.interfaces), ", "@) + "]"@,
        "\tport "@ + decimal_text(config.port as nat),
        "\tpath "@ + path_shown,
        " Service starting ..."@,
    ]
}

/// A configuration in words, line by line, the path in its `Debug` form.
pub open spec fn summary_lines(config: ConfigModel) -> Seq<Seq<char>> {
    summary_lines_with(config, debug_text(config.path))
}

/// Whether `result` is `expected`, each side by its view.
pub open spec fn resolves_to(
    result: Result<LinConfig, ContextualError>,
    expected: Result<ConfigModel, Failure>,
) -> bool {
    match expected {
        Ok(model) => result matches Ok(config) && config@ == model,
        Err(failure) => result matches Err(error) && error@ == failure,
    }
}

impl View for LinConfig {
    type V = ConfigModel;

    closed spec fn view(&self) -> ConfigModel {
        ConfigModel { interfaces: self.interfaces@, port: self.port, path: self.path@ }
    }
}

impl Default for LinConfig {
    /// The configuration of a service that was asked for nothing in
    /// particular: every interface, port 8136, the directory `./lin_home`.
    fn default() -> (config: Self)
        ensures
            config@ == default_model(),
    {
        let mut interfaces: Vec<IpAddress> = Vec::new();
        interfaces.push(IpAddress::V6([0, 0, 0, 0, 0, 0, 0, 0]));
        interfaces.push(IpAddress::V4([0, 0, 0, 0]));
        assert(interfaces@ =~= default_interfaces());
        LinConfig { interfaces, port: DEFAULT_PORT, path: String::from_str("./lin_home") }
    }
}

impl Clone for LinConfig {
    fn clone(&self) -> (copy: Self)
        ensures
            copy@ == self@,
    {
        proof {
            use_type_invariant(self);
        }
        let mut interfaces: Vec<IpAddress> = Vec::new();
        let mut i: usize = 0;
        while i < self.interfaces.len()
            invariant
                i <= self.interfaces.len(),
                interfaces@ == self.interfaces@.take(i as int),
            decreases self.interfaces.len() - i,
        {
            interfaces.push(self.interfaces[i]);
            assert(interfaces@ =~= self.interfaces@.take(i + 1));
            i = i + 1;
        }
        assert(interfaces@ =~= self.interfaces@);
        LinConfig { interfaces, port: self.port, path: self.path.clone() }
    }
}

impl LinConfig {
    #[verifier::type_invariant]
    spec fn holds_no_placeholder(self) -> bool {
        self.interfaces@.len() > 0 && self.port != 0
    }

    /// The interfaces to listen on. There is at least one.
    pub fn interfaces(&self) -> (interfaces: &Vec<IpAddress>)
        ensures
            interfaces@ == self@.interfaces,
            interfaces@.len() > 0,
    {
        proof {
            use_type_invariant(self);
        }
        &self.interfaces
    }

    /// The port to listen on. It is not 0.
    pub fn port(&self) -> (port: u16)
        ensures
            port == self@.port,
            port != 0,
    {
        proof {
            use_type_invariant(self);
        }
        self.port
    }

    /// The directory to serve, as it was given: it need not exist.
    pub fn path(&self) -> (path: &str)
        ensures
            path@ == self@.path,
    {
        self.path.as_str()
    }

    /// The configuration in words, one line for each entry, the path in
    /// its `Debug` form.
    pub fn summary(&self) -> (lines: Vec<String>)
        ensures
            lines.deep_view() == summary_lines(self@),
    {
        let path_shown = debug_form(self.path.as_str());
        self.summary_with(path_shown.as_str())
    }

    /// The configuration in words, one line for each entry, with the path
    /// written as `path_shown`.
    pub fn summary_with(&self, path_shown: &str) -> (lines: Vec<String>)
        ensures
            lines.deep_view() == summary_lines_with(self@, path_shown@),
    {
        let mut texts: Vec<String> = Vec::new();
        let mut i: usize = 0;
        while i < self.interfaces.len()
            invariant
                i <= self.interfaces.len(),
                texts@.len() == i,
                forall|j: int| 0 <= j < i ==> (#[trigger] texts@[j])@ == self.interfaces@[j].text(),
            decreases self.interfaces.len() - i,
        {
            texts.push(self.interfaces[i].to_text());
            i = i + 1;
        }
        assert(texts.deep_view() =~= interface_texts(self.interfaces@));
        let list = join(&texts, ", ");
        let mut interfaces_line = String::from_str("\tinterfaces [");
        interfaces_line.append(list.as_str());
        interfaces_line.append("]");
        let mut port_line = String::from_str("\tport ");
        push_decimal(&mut port_line, self.port as u32);
        let mut path_line = String::from_str("\tpath ");
        path_line.append(path_shown);
        let mut lines: Vec<String> = Vec::new();
        lines.push(interfaces_line);
        lines.push(port_line);
        lines.push(path_line);
        lines.push(String::from_str(" Service starting ..."));
        assert(lines.deep_view() =~= summary_lines_with(self@, path_shown@));
        lines
    }
}

/// The interfaces to listen on: `given` itself unless it is empty, and
/// the default pair if it is.
pub fn normalize_interfaces(given: Vec<IpAddress>) -> (interfaces: Vec<IpAddress>)
    ensures
        interfaces@ == normalized_interfaces(given@),
        given@.len() == 0 ==> interfaces@ == default_interfaces(),
        given@.len() > 0 ==> interfaces@ == given@,
        interfaces@.len() > 0,
{
    if given.len() == 0 {
        let mut interfaces: Vec<IpAddress> = Vec::new();
        interfaces.push(IpAddress::V6([0, 0, 0, 0, 0, 0, 0, 0]));
        interfaces.push(IpAddress::V4([0, 0, 0, 0]));
        assert(interfaces@ =~= default_interfaces());
        interfaces
    } else {
        given
    }
}

/// The port to listen on, given what the system `offered` when it was
/// asked for a free port. A `requested` port other than 0 is kept and the
/// offer is not looked at. For 0 the offer is taken; no offer, or the
/// offer of port 0, is a failure.
pub fn resolve_port_with(requested: u16, offered: Option<u16>) -> (result: Result<
    u16,
    ContextualError,
>)
    ensures
        match resolved_port(requested, offered) {
            Some(port) => result == Ok::<u16, ContextualError>(port),
            None => result matches Err(error) && error@ == Failure::PortAllocation,
        },
{
    if requested != 0 {
        Ok(requested)
    } else {
        match offered {
            Some(port) => {
                if port != 0 {
                    Ok(port)
                } else {
                    Err(ContextualError::PortAllocationError)
                }
            },
            None => Err(ContextualError::PortAllocationError),
        }
    }
}

/// Asks the system for a local port that is free, by
/// `port_check::free_local_port`. The answer depends on the machine and
/// the moment, so nothing is claimed of it: not that there is one, nor
/// which.
#[verifier::external_body]
fn free_local_port() -> (offered: Option<u16>) {
    port_check::free_local_port()
}

/// The port to listen on. A `requested` port other than 0 is returned as
/// it is. For 0 the system is asked for a free port, once.
pub fn resolve_port(requested: u16) -> (result: Result<u16, ContextualError>)
    ensures
        requested != 0 ==> result == Ok::<u16, ContextualError>(requested),
        requested == 0 ==> match result {
            Ok(port) => port != 0,
            Err(error) => error@ == Failure::PortAllocation,
        },
{
    if requested != 0 {
        Ok(requested)
    } else {
        resolve_port_with(requested, free_local_port())
    }
}

/// The directory to serve: `given`, or `fallback` where there is none.
pub fn resolve_path(given: Option<String>, fallback: &str) -> (path: String)
    ensures
        path@ == resolved_path(
            match given {
                Some(p) => Some(p@),
                None => None,
            },
            fallback@,
        ),
{
    match given {
        Some(path) => path,
        None => String::from_str(fallback),
    }
}

/// Resolves a request, given what the system `offered` when it was asked
/// for a free port. See `resolution`.
pub fn get_cli_mode_with(mode: CliMod, offered: Option<u16>) -> (result: Result<
    LinConfig,
    ContextualError,
>)
    ensures
        resolves_to(result, resolution(mode@, offered)),
        result matches Ok(config) ==> config@.is_resolved(),
{
    match mode {
        CliMod::Client { interfaces, port, path } => {
            let interfaces = normalize_interfaces(interfaces);
            let port = match resolve_port_with(port, offered) {
                Ok(port) => port,
                Err(error) => {
                    return Err(error);
                },
            };
            let path = resolve_path(path, "./linc_home");
            Ok(LinConfig { interfaces, port, path })
        },
        _ => Ok(LinConfig::default()),
    }
}

/// Resolves a request of the `Client` mode: the interfaces as given, or
/// the default pair where none was; the port as given, or a free one from
/// the system for 0; the path as given, or `./linc_home`. Any other
/// request resolves to the default configuration.
///
/// Only a `Client` request with port 0 can fail, and only because the
/// system had no port to offer.
pub fn get_cli_mode(mode: CliMod) -> (result: Result<LinConfig, ContextualError>)
    ensures
        exists|offered: Option<u16>| resolves_to(result, #[trigger] resolution(mode@, offered)),
        !(mode@ matches ModeModel::Client { port, .. } && port == 0) ==> resolves_to(
            result,
            resolution(mode@, None),
        ),
        result matches Ok(config) ==> config@.is_resolved(),
{
    let needs_offer = match &mode {
        CliMod::Client { port, .. } => *port == 0,
        _ => false,
    };
    let offered = if needs_offer {
        free_local_port()
    } else {
        None
    };
    get_cli_mode_with(mode, offered)
}

/// Resolves a request of any mode to the configuration of the service.
/// A `Client` request is resolved field by field, as `get_cli_mode` says;
/// the two other modes give the default configuration.
pub fn resolve_config(mode: CliMod) -> (result: Result<LinConfig, ContextualError>)
    ensures
        exists|offered: Option<u16>| resolves_to(result, #[trigger] resolution(mode@, offered)),
        !(mode@ matches ModeModel::Client { port, .. } && port == 0) ==> resolves_to(
            result,
            resolution(mode@, None),
        ),
        result matches Ok(config) ==> config@.is_resolved(),
{
    match mode {
        CliMod::Client { interfaces, port, path } => get_cli_mode(
            CliMod::Client { interfaces, port, path },
        ),
        CliMod::YmlConf { file } => {
            let config = get_yml_mode(CliMod::YmlConf { file });
            assert(resolves_to(Ok(config), resolution(mode@, None)));
            Ok(config)
        },
        CliMod::Default => {
            let config = get_def_mode();
            assert(resolves_to(Ok(config), resolution(mode@, None)));
            Ok(config)
        },
    }
}

/// Whatever the request and whatever the system offers, a configuration
/// that the request resolves to holds no placeholder: it has an interface
/// and its port is not 0.
pub proof fn lemma_resolution_is_resolved(mode: ModeModel, offered: Option<u16>)
    ensures
        resolution(mode, offered) matches Ok(config) ==> config.is_resolved(),
{
}

/// The directory that is served by default depends on whether anything
/// was asked for.
pub proof fn lemma_default_paths_differ()
    ensures
        default_path() != explicit_default_path(),
{
    reveal_strlit("./lin_home");
    reveal_strlit("./linc_home");
    assert(default_path().len() != explicit_default_path().len());
}

/// A request with a port other than 0, and any request that is not of the
/// `Client` mode, resolves without failure and without regard to what the
/// system offers.
pub proof fn lemma_resolution_without_offer(
    mode: ModeModel,
    offered: Option<u16>,
    other: Option<u16>,
)
    requires
        !(mode matches ModeModel::Client { port, .. } && port == 0),
    ensures
        resolution(mode, offered) is Ok,
        resolution(mode, offered) == resolution(mode, other),
{
}

/// Resolves a request that names configuration files. The files are not
/// read: the result is the default configuration, whatever the request.
#[allow(unused_variables)]
pub fn get_yml_mode(mode: CliMod) -> (config: LinConfig)
    ensures
        config@ == default_model(),
        config@.is_resolved(),
{
    LinConfig::default()
}

/// The default configuration.
pub fn get_def_mode() -> (config: LinConfig)
    ensures
        config@ == default_model(),
        config@.is_resolved(),
{
    LinConfig::default()
}

} // verus!
