//! The words with which a running service is announced on a terminal.

use vstd::prelude::*;
use vstd::string::*;
use crate::endpoints::{EndpointModel, ResolvedEndpoint};
use crate::text::{join, joined};

verus! {

/// The colours in which parts of the announcement are shown.
#[derive(Clone, Copy, Debug, PartialEq, Eq)]
pub enum Tint {
    Red,
    Green,
    Yellow,
}

/// The digit that selects a tint as a foreground colour in a terminal
/// control sequence.
pub open spec fn tint_digit(tint: Tint) -> char {
    match tint {
        Tint::Red => '1',
        Tint::Green => '2',
        Tint::Yellow => '3',
    }
}

/// `text` between the control sequences that switch a terminal to bold
/// and to the tint, and back to its defaults.
pub open spec fn painted(tint: Tint, text: Seq<char>) -> Seq<char> {
    seq!['\x1b', '[', '1', ';', '3', tint_digit(tint), 'm'] + text + seq!['\x1b', '[', '0', 'm']
}

/// Whether `shown` is `text` as a terminal is given it: painted, or left
/// as it is where painting is switched off.
pub open spec fn is_shown_as(shown: Seq<char>, tint: Tint, text: Seq<char>) -> bool {
    shown == text || shown == painted(tint, text)
}

/// The link to an endpoint: the scheme, then host and port as they are
/// displayed.
pub open spec fn url_text(display: Seq<char>) -> Seq<char> {
    "http://"@ + display
}

/// The announcement, made of its parts as they are shown.
pub open spec fn announcement_text(
    path_shown: Seq<char>,
    urls_shown: Seq<Seq<char>>,
    quit_shown: Seq<char>,
) -> Seq<char> {
    "Serving file path "@ + path_shown + " at "@ + joined(urls_shown, ", "@)
        + "\nServer is running...\nQuit by pressing "@ + quit_shown
}

/// Whether `out` announces a service that serves `served_path` at
/// `endpoints`: the path in yellow, a link to each endpoint in green, in
/// their order, and the key to quit in red, each of them painted or not.
pub open spec fn is_announcement(
    out: Seq<char>,
    served_path: Seq<char>,
    endpoints: Seq<EndpointModel>,
) -> bool {
    exists|path_shown: Seq<char>, urls_shown: Seq<Seq<char>>, quit_shown: Seq<char>|
        {
            &&& is_shown_as(path_shown, Tint::Yellow, served_path)
            &&& urls_shown.len() == endpoints.len()
            &&& forall|i: int|
                0 <= i < endpoints.len() ==> is_shown_as(
                    #[trigger] urls_shown[i],
                    Tint::Green,
                    url_text(endpoints[i].display),
                )
            &&& is_shown_as(quit_shown, Tint::Red, "CTRL-C"@)
            &&& out == #[trigger] announcement_text(path_shown, urls_shown, quit_shown)
        }
}

/// Paints `text` bold and in `tint`, by `yansi::Color::paint`,
/// `yansi::Paint::bold` and the `Display` of the painted value. That
/// writes `text` between the two control sequences of `painted`, or
/// `text` alone while painting is switched off for the process; which of
/// the two is not claimed.
#[verifier::external_body]
fn paint_bold(tint: Tint, text: &str) -> (shown: String)
    ensures
        is_shown_as(shown@, tint, text@),
{
    let color = match tint {
        Tint::Red => yansi::Color::Red,
        Tint::Green => yansi::Color::Green,
        Tint::Yellow => yansi::Color::Yellow,
    };
    format!("{}", color.paint(text).bold())
}

/// The link to an endpoint.
pub fn endpoint_url(endpoint: &ResolvedEndpoint) -> (url: String)
    ensures
        url@ == url_text(endpoint@.display),
{
    let mut url = String::from_str("http://");
    url.append(endpoint.display.as_str());
    url
}

/// Puts the announcement together from its parts as they are shown.
pub fn compose_announcement(path_shown: &str, urls_shown: &Vec<String>, quit_shown: &str) -> (out:
    String)
    ensures
        out@ == announcement_text(path_shown@, urls_shown.deep_view(), quit_shown@),
{
    let mut out = String::from_str("Serving file path ");
    out.append(path_shown);
    out.append(" at ");
    let urls = join(urls_shown, ", ");
    out.append(urls.as_str());
    out.append("\nServer is running...\nQuit by pressing ");
    out.append(quit_shown);
    out
}

/// The announcement of a service that serves `served_path` at
/// `endpoints`, painted for a terminal.
pub fn announcement(served_path: &str, endpoints: &Vec<ResolvedEndpoint>) -> (out: String)
    ensures
        is_announcement(out@, served_path@, endpoints.deep_view()),
{
    let path_shown = paint_bold(Tint::Yellow, served_path);
    let mut urls_shown: Vec<String> = Vec::new();
    let mut i: usize = 0;
    while i < endpoints.len()
        invariant
            i <= endpoints.len(),
            urls_shown@.len() == i,
            forall|j: int|
                0 <= j < i ==> is_shown_as(
                    (#[trigger] urls_shown@[j])@,
                    Tint::Green,
                    url_text(endpoints@[j]@.display),
                ),
        decreases endpoints.len() - i,
    {
        let url = endpoint_url(&endpoints[i]);
        urls_shown.push(paint_bold(Tint::Green, url.as_str()));
        i = i + 1;
    }
    let quit_shown = paint_bold(Tint::Red, "CTRL-C");
    let out = compose_announcement(path_shown.as_str(), &urls_shown, quit_shown.as_str());
    proof {
        let shown = urls_shown.deep_view();
        assert forall|j: int| 0 <= j < endpoints.deep_view().len() implies is_shown_as(
            #[trigger] shown[j],
            Tint::Green,
            url_text(endpoints.deep_view()[j].display),
        ) by {
            assert(shown[j] == urls_shown@[j]@);
        }
        assert(out@ == announcement_text(path_shown@, shown, quit_shown@));
    }
    out
}

} // verus!
