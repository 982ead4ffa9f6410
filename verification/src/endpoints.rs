//! From logical interfaces to the addresses a listener binds and the
//! texts under which the service is shown.

use vstd::prelude::*;
use vstd::string::*;
use crate::address::{IpAddress, SocketAddress};
use crate::errors::{ContextualError, Failure};
use crate::text::{decimal_text, push_decimal};

verus! {

/// One interface made ready for the listener: the address to bind, and
/// the host and port as they are shown to a user.
#[derive(Debug, PartialEq, Eq)]
pub struct ResolvedEndpoint {
    pub address: SocketAddress,
    pub display: String,
}

/// A resolved endpoint as a value of mathematics.
pub struct EndpointModel {
    pub address: SocketAddress,
    pub display: Seq<char>,
}

impl View for ResolvedEndpoint {
    type V = EndpointModel;

    open spec fn view(&self) -> EndpointModel {
        EndpointModel { address: self.address, display: self.display@ }
    }
}

impl DeepView for ResolvedEndpoint {
    type V = EndpointModel;

    open spec fn deep_view(&self) -> EndpointModel {
        self@
    }
}

/// The host under which an interface is shown. `0.0.0.0` is shown as the
/// loopback address `127.0.0.1`, which every platform accepts as the
/// target of a link; an IPv6 address stands in square brackets; any other
/// address is shown as it is.
pub open spec fn display_host(ip: IpAddress) -> Seq<char> {
    if ip.is_ipv4_wildcard() {
        "127.0.0.1"@
    } else if ip is V6 {
        seq!['['] + ip.text() + seq![']']
    } else {
        ip.text()
    }
}

/// The host of the address that is bound: the interface itself, an IPv6
/// address in square brackets.
pub open spec fn bind_host(ip: IpAddress) -> Seq<char> {
    if ip is V6 {
        seq!['['] + ip.text() + seq![']']
    } else {
        ip.text()
    }
}

/// A host and a port as one text: the host, a colon, the port in base ten.
pub open spec fn socket_text(host: Seq<char>, port: u16) -> Seq<char> {
    host + seq![':'] + decimal_text(port as nat)
}

/// An interface is shown under the host that is bound, with one
/// exception: `0.0.0.0` is bound as it is and shown as `127.0.0.1`.
pub proof fn lemma_display_host_and_bind_host(ip: IpAddress)
    ensures
        !ip.is_ipv4_wildcard() ==> display_host(ip) == bind_host(ip),
        ip.is_ipv4_wildcard() ==> display_host(ip) == "127.0.0.1"@ && bind_host(ip) == "0.0.0.0"@,
{
    if ip.is_ipv4_wildcard() {
        reveal_strlit("0.0.0.0");
        assert(bind_host(ip) =~= "0.0.0.0"@);
    }
}

/// Appends a colon and the port to `out`.
fn push_port(out: &mut String, port: u16)
    ensures
        final(out)@ == socket_text(old(out)@, port),
{
    proof {
        reveal_strlit(":");
    }
    out.append(":");
    push_decimal(out, port as u32);
}

/// The text under which `ip` is shown with `port`.
pub fn display_text(ip: &IpAddress, port: u16) -> (out: String)
    ensures
        out@ == socket_text(display_host(*ip), port),
{
    proof {
        reveal_strlit("[");
        reveal_strlit("]");
    }
    let mut out = String::new();
    if ip.is_unspecified_v4() {
        out.append("127.0.0.1");
    } else if ip.is_ipv6() {
        out.append("[");
        ip.push_text(&mut out);
        out.append("]");
    } else {
        ip.push_text(&mut out);
    }
    assert(out@ =~= display_host(*ip));
    push_port(&mut out, port);
    out
}

/// The text of the socket address that is bound for `ip` with `port`, in
/// the form that a socket-address parser reads.
pub fn bind_text(ip: &IpAddress, port: u16) -> (out: String)
    ensures
        out@ == socket_text(bind_host(*ip), port),
{
    proof {
        reveal_strlit("[");
        reveal_strlit("]");
    }
    let mut out = String::new();
    if ip.is_ipv6() {
        out.append("[");
        ip.push_text(&mut out);
        out.append("]");
    } else {
        ip.push_text(&mut out);
    }
    assert(out@ =~= bind_host(*ip));
    push_port(&mut out, port);
    out
}

/// The texts to parse, one for each interface, in their order.
pub fn bind_texts(interfaces: &Vec<IpAddress>, port: u16) -> (texts: Vec<String>)
    ensures
        texts@.len() == interfaces@.len(),
        forall|i: int|
            0 <= i < interfaces@.len() ==> (#[trigger] texts@[i])@ == socket_text(
                bind_host(interfaces@[i]),
                port,
            ),
{
    let mut texts: Vec<String> = Vec::new();
    let mut i: usize = 0;
    while i < interfaces.len()
        invariant
            i <= interfaces.len(),
            texts@.len() == i,
            forall|j: int|
                0 <= j < i ==> (#[trigger] texts@[j])@ == socket_text(
                    bind_host(interfaces@[j]),
                    port,
                ),
        decreases interfaces.len() - i,
    {
        texts.push(bind_text(&interfaces[i], port));
        i = i + 1;
    }
    texts
}

/// Whether `k` is the place of the first text that did not parse.
pub open spec fn is_first_failure(parsed: Seq<Result<SocketAddress, String>>, k: int) -> bool {
    &&& 0 <= k < parsed.len()
    &&& parsed[k] is Err
    &&& forall|j: int| 0 <= j < k ==> parsed[j] is Ok
}

/// Makes the endpoints of `interfaces` from what parsing their texts gave:
/// `parsed` holds, for each interface in order, the address that its text
/// of `bind_texts` parsed to, or why it did not parse.
///
/// All or nothing: where every text parsed, there is one endpoint for each
/// interface, in order; where one did not, there is no endpoint at all,
/// and the failure names the first text that did not parse, and holds
/// its cause.
pub fn translate(
    interfaces: &Vec<IpAddress>,
    port: u16,
    parsed: &Vec<Result<SocketAddress, String>>,
) -> (result: Result<Vec<ResolvedEndpoint>, ContextualError>)
    requires
        parsed@.len() == interfaces@.len(),
    ensures
        result is Err <==> exists|i: int| 0 <= i < parsed@.len() && parsed@[i] is Err,
        result matches Ok(endpoints) ==> {
            &&& endpoints@.len() == interfaces@.len()
            &&& forall|i: int|
                0 <= i < interfaces@.len() ==> {
                    &&& parsed@[i] matches Ok(address)
                    &&& (#[trigger] endpoints@[i])@ == (EndpointModel {
                        address,
                        display: socket_text(display_host(interfaces@[i]), port),
                    })
                }
        },
        result matches Err(error) ==> exists|k: int|
            is_first_failure(parsed@, k) && error@ == Failure::Parse(
                socket_text(bind_host(interfaces@[k]), port),
                (#[trigger] parsed@[k])->Err_0@,
            ),
{
    let mut endpoints: Vec<ResolvedEndpoint> = Vec::new();
    let mut i: usize = 0;
    while i < interfaces.len()
        invariant
            i <= interfaces.len(),
            parsed@.len() == interfaces@.len(),
            endpoints@.len() == i,
            forall|j: int| 0 <= j < i ==> parsed@[j] is Ok,
            forall|j: int|
                0 <= j < i ==> (#[trigger] endpoints@[j])@ == (EndpointModel {
                    address: parsed@[j]->Ok_0,
                    display: socket_text(display_host(interfaces@[j]), port),
                }),
        decreases interfaces.len() - i,
    {
        match &parsed[i] {
            Ok(address) => {
                let display = display_text(&interfaces[i], port);
                endpoints.push(ResolvedEndpoint { address: *address, display });
            },
            Err(cause) => {
                assert(is_first_failure(parsed@, i as int));
                let failing = bind_text(&interfaces[i], port);
                return Err(ContextualError::ParseError(failing, cause.clone()));
            },
        }
        i = i + 1;
    }
    Ok(endpoints)
}

} // verus!
