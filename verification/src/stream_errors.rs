//! Telling a peer that has gone from a stream that has failed.
use vstd::prelude::*;

use crate::text::{contains_text, occurs_in};

verus! {

/// `anyhow`'s error, a chain of causes.
#[verifier::external_type_specification]
#[verifier::external_body]
pub struct ExAnyhowError(anyhow::Error);

/// The kinds of input and output failure of a connection.
#[derive(Clone, Copy, Debug, PartialEq, Eq, Structural)]
pub enum IoKind {
    BrokenPipe,
    ConnectionAborted,
    ConnectionRefused,
    ConnectionReset,
    NotConnected,
    TimedOut,
    UnexpectedEof,
    /// A failure of no kind, which only its text tells about.
    Other,
    /// Any kind that is not listed here.
    Unlisted,
}

/// One cause in the chain of an error: the kind of input or output failure that
/// it is, if it is one, and how it is written out.
#[derive(Debug)]
pub struct Cause {
    pub io: Option<IoKind>,
    pub text: String,
}

/// The causes of an error, from the outermost to the root.
pub uninterp spec fn error_causes(error: anyhow::Error) -> Seq<
    (Option<IoKind>, Seq<char>),
>;

/// The kinds and texts of a list of causes.
pub open spec fn causes_view(causes: Seq<Cause>) -> Seq<(Option<IoKind>, Seq<char>)> {
    Seq::new(causes.len(), |i: int| (causes[i].io, causes[i].text@))
}

/// `anyhow::Error::chain`: the causes of the error, in order, each with the kind
/// of an input or output error and with its text.
#[verifier::external_body]
fn chain(error: &anyhow::Error) -> (causes: Vec<Cause>)
    ensures
        causes_view(causes@) == error_causes(*error),
{
    error.chain().map(|cause| Cause {
        io: cause.downcast_ref::<std::io::Error>().map(|io| match io.kind() {
            std::io::ErrorKind::BrokenPipe => IoKind::BrokenPipe,
            std::io::ErrorKind::ConnectionAborted => IoKind::ConnectionAborted,
            std::io::ErrorKind::ConnectionRefused => IoKind::ConnectionRefused,
            std::io::ErrorKind::ConnectionReset => IoKind::ConnectionReset,
            std::io::ErrorKind::NotConnected => IoKind::NotConnected,
            std::io::ErrorKind::TimedOut => IoKind::TimedOut,
            std::io::ErrorKind::UnexpectedEof => IoKind::UnexpectedEof,
            std::io::ErrorKind::Other => IoKind::Other,
            _ => IoKind::Unlisted,
        }),
        text: cause.to_string(),
    }).collect()
}

/// The text of a failure to use a websocket that was closed before.
pub open spec fn tells_of_closed_socket(text: Seq<char>) -> bool {
    ||| occurs_in("Trying to work with closed connection"@, text)
    ||| occurs_in("Connection closed normally"@, text)
}

/// A cause that only means that the peer had already gone: a broken, reset or
/// aborted connection, one that ended without a closing notice, or the use of a
/// websocket that was closed before. The last is told by its text: such a
/// failure also comes as an input or output error of no kind of its own.
pub open spec fn means_peer_gone(cause: (Option<IoKind>, Seq<char>)) -> bool {
    match cause.0 {
        Some(kind) => {
            ||| kind is BrokenPipe
            ||| kind is ConnectionReset
            ||| kind is ConnectionAborted
            ||| kind is UnexpectedEof
            ||| kind is Other && tells_of_closed_socket(cause.1)
        },
        None => tells_of_closed_socket(cause.1),
    }
}

/// One of the causes only means that the peer had already gone.
pub open spec fn any_means_peer_gone(causes: Seq<(Option<IoKind>, Seq<char>)>) -> bool {
    exists|i: int| 0 <= i < causes.len() && means_peer_gone(#[trigger] causes[i])
}

fn text_tells_of_closed_socket(text: &str) -> (r: bool)
    ensures
        r == tells_of_closed_socket(text@),
{
    contains_text(text, "Trying to work with closed connection") || contains_text(
        text,
        "Connection closed normally",
    )
}

fn cause_means_peer_gone(cause: &Cause) -> (r: bool)
    ensures
        r == means_peer_gone((cause.io, cause.text@)),
{
    match cause.io {
        Some(IoKind::BrokenPipe) | Some(IoKind::ConnectionReset) | Some(
            IoKind::ConnectionAborted,
        ) | Some(IoKind::UnexpectedEof) => true,
        Some(IoKind::Other) | None => text_tells_of_closed_socket(cause.text.as_str()),
        Some(_) => false,
    }
}

/// Whether any of the causes of a failure only means that the peer had gone.
pub fn any_cause_means_peer_gone(causes: &Vec<Cause>) -> (r: bool)
    ensures
        r == exists|i: int|
            0 <= i < causes@.len() && means_peer_gone(#[trigger] causes_view(causes@)[i]),
        r == any_means_peer_gone(causes_view(causes@)),
{
    let mut i: usize = 0;
    while i < causes.len()
        invariant
            i <= causes.len(),
            forall|j: int| 0 <= j < i ==> !means_peer_gone(#[trigger] causes_view(causes@)[j]),
        decreases causes.len() - i,
    {
        assert(causes_view(causes@)[i as int] == (causes@[i as int].io, causes@[i as int].text@));
        if cause_means_peer_gone(&causes[i]) {
            return true;
        }
        i += 1;
    }
    false
}

/// Whether a pump failure only means that a peer had already gone: a client
/// killed in mid-stream drops its connection without a websocket close, and the
/// close handshake itself can leave one direction writing into a socket that
/// the other has just closed. Neither is an error that an operator needs to
/// see.
///
/// The use of a closed websocket is matched on its text: on the server side it
/// comes wrapped in an input or output error that keeps nothing but the text.
pub fn is_peer_gone(error: &anyhow::Error) -> (r: bool)
    ensures
        r == exists|i: int|
            0 <= i < error_causes(*error).len() && means_peer_gone(
                #[trigger] error_causes(*error)[i],
            ),
        r == any_means_peer_gone(error_causes(*error)),
{
    let causes: Vec<Cause> = chain(error);
    any_cause_means_peer_gone(&causes)
}

} // verus!
