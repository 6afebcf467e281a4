//! The telemetry transport: which datagrams are accepted, what is sent
//! where, and what one turn of the serving loop does. The socket itself is
//! the caller's: it hands a received datagram in and performs the action
//! that comes out.

use crate::dispatch::{dispatched, request_of, Dispatch};
use crate::isw_raw_access::RegisterSpace;
use crate::text::{append_decimal, decimal, same_text};
use vstd::prelude::*;
use vstd::string::*;
use vstd::utf8::{decode_utf8, valid_utf8};

verus! {

/// The size of the buffer that a datagram is received into.
pub const BUFFER_SIZE: usize = 1024;

/// The socket failed to receive.
#[derive(Clone, Copy, Debug, PartialEq, Eq, Structural)]
pub struct TransportError;

/// A received datagram: the whole receive buffer, zero where the datagram
/// did not reach, the address it came from and the address the socket is
/// bound to.
#[derive(Clone, Debug, PartialEq, Eq)]
pub struct Incoming {
    pub buffer: Vec<u8>,
    pub sender: String,
    pub local: String,
}

/// A datagram to send: the payload and the endpoint it goes to.
#[derive(Clone, Debug, PartialEq, Eq)]
pub struct Outgoing {
    pub destination: String,
    pub payload: String,
}

/// What the serving loop does after a receive.
#[derive(Clone, Debug, PartialEq, Eq)]
pub enum SocketAction {
    /// Send the response, then receive again.
    Reply(Outgoing),
    /// Receive again: the payload was empty, so that there is nothing to
    /// answer.
    Empty,
    /// Receive again: the payload got no response.
    Wait,
    /// Leave the loop: the socket failed.
    Stop,
}

/// A `SocketAction` with its texts as character sequences.
pub enum SocketActionView {
    Reply { destination: Seq<char>, payload: Seq<char> },
    Empty,
    Wait,
    Stop,
}

impl View for SocketAction {
    type V = SocketActionView;

    open spec fn view(&self) -> SocketActionView {
        match *self {
            SocketAction::Reply(out) => SocketActionView::Reply {
                destination: out.destination@,
                payload: out.payload@,
            },
            SocketAction::Empty => SocketActionView::Empty,
            SocketAction::Wait => SocketActionView::Wait,
            SocketAction::Stop => SocketActionView::Stop,
        }
    }
}

/// The endpoint `ip:port`.
pub open spec fn endpoint(ip: Seq<char>, port: u16) -> Seq<char> {
    ip + ":"@ + decimal(port as nat)
}

/// `text` without the zero characters at its end.
pub open spec fn trim_end_nul(text: Seq<char>) -> Seq<char>
    decreases text.len(),
{
    if text.len() > 0 && text.last() == '\0' {
        trim_end_nul(text.drop_last())
    } else {
        text
    }
}

/// The payload of a datagram: empty unless the datagram comes from the
/// address that the socket is bound to and its buffer is UTF-8; else the
/// buffer's text without the zero fill at its end. A zero character at
/// the start of the text, or inside it, is part of the payload.
pub open spec fn payload_text(buffer: Seq<u8>, sender: Seq<char>, local: Seq<char>) -> Seq<char> {
    if sender != local || !valid_utf8(buffer) {
        Seq::<char>::empty()
    } else {
        trim_end_nul(decode_utf8(buffer))
    }
}

/// The payload of what the socket's receive handed over; none where it
/// failed.
pub open spec fn received_payload(incoming: Option<Incoming>) -> Option<Seq<char>> {
    match incoming {
        None => None,
        Some(datagram) => Some(payload_text(datagram.buffer@, datagram.sender@, datagram.local@)),
    }
}

/// What the serving loop does with a response: it sends one that is not
/// empty to `destination`, and waits otherwise.
pub open spec fn reply_or_wait(destination: Seq<char>, response: Seq<char>) -> SocketActionView {
    if response.len() == 0 {
        SocketActionView::Wait
    } else {
        SocketActionView::Reply { destination, payload: response }
    }
}

/// `action` is what the serving loop does after a receive that handed
/// over `received` (`None`: the socket failed): it stops on a failure,
/// passes over an empty payload, and else lets the dispatcher answer the
/// payload and replies or waits.
pub open spec fn served<R: RegisterSpace>(
    destination: Seq<char>,
    entries: Map<(Seq<char>, Seq<char>), Seq<char>>,
    space: R,
    received: Option<Seq<char>>,
    action: SocketActionView,
) -> bool {
    match received {
        None => action == SocketActionView::Stop,
        Some(payload) => if payload.len() == 0 {
            action == SocketActionView::Empty
        } else {
            exists|response: Seq<char>| #[trigger]
                dispatched(entries, space, request_of(payload), response) && action
                    == reply_or_wait(destination, response)
        },
    }
}

/// `String::from_utf8`: the text that the bytes encode, and none exactly
/// where the bytes are not UTF-8.
#[verifier::external_body]
fn text_of_bytes(bytes: Vec<u8>) -> (r: Option<String>)
    ensures
        r matches Some(text) ==> valid_utf8(bytes@) && text@ == decode_utf8(bytes@),
        r is None ==> !valid_utf8(bytes@),
{
    match String::from_utf8(bytes) {
        Ok(text) => Some(text),
        Err(_) => None,
    }
}

/// Removes the zero characters at the end of `text`.
pub fn trim_fill(text: &str) -> (r: String)
    ensures
        r@ == trim_end_nul(text@),
{
    let n = text.unicode_len();
    let mut to: usize = n;
    assert(text@.take(to as int) =~= text@);
    loop
        invariant
            n == text@.len(),
            to <= n,
            trim_end_nul(text@) == trim_end_nul(text@.take(to as int)),
        ensures
            to <= n,
            trim_end_nul(text@) == text@.take(to as int),
        decreases to,
    {
        if to == 0 {
            break ;
        }
        assert(text@.take(to as int).last() == text@[to - 1]);
        if text.get_char(to - 1) != '\0' {
            break ;
        }
        assert(text@.take(to as int).drop_last() =~= text@.take(to - 1));
        to -= 1;
    }
    assert(text@.take(to as int) =~= text@.subrange(0, to as int));
    String::from_str(text.substring_char(0, to))
}

/// The two fixed endpoints of the transport: datagrams are received on
/// `ip:port_rx` and responses go to `ip:port_tx`.
#[derive(Clone, Debug, PartialEq, Eq)]
pub struct Online {
    port_tx: u16,
    ip: String,
    port_rx: u16,
}

impl Online {
    /// The address of both endpoints.
    pub closed spec fn ip(&self) -> Seq<char> {
        self.ip@
    }

    /// The port that datagrams are received on.
    pub closed spec fn port_rx(&self) -> u16 {
        self.port_rx
    }

    /// The port that responses go to.
    pub closed spec fn port_tx(&self) -> u16 {
        self.port_tx
    }

    /// The transport that receives on `ip:port_rx` and sends to `ip:port_tx`.
    pub fn new(ip: String, port_rx: u16, port_tx: u16) -> (r: Online)
        ensures
            r.ip() == ip@,
            r.port_rx() == port_rx,
            r.port_tx() == port_tx,
    {
        Online { port_tx, ip, port_rx }
    }

    /// The endpoint to bind the socket to.
    pub fn local_endpoint(&self) -> (r: String)
        ensures
            r@ == endpoint(self.ip(), self.port_rx()),
    {
        let mut build = self.ip.clone();
        build.append(":");
        append_decimal(&mut build, self.port_rx as u64);
        build
    }

    /// The endpoint that responses go to.
    pub fn remote_endpoint(&self) -> (r: String)
        ensures
            r@ == endpoint(self.ip(), self.port_tx()),
    {
        let mut build = self.ip.clone();
        build.append(":");
        append_decimal(&mut build, self.port_tx as u64);
        build
    }

    /// The datagram that carries `data` to the remote endpoint.
    pub fn send(&self, data: String) -> (r: Outgoing)
        ensures
            r.destination@ == endpoint(self.ip(), self.port_tx()),
            r.payload@ == data@,
    {
        Outgoing { destination: self.remote_endpoint(), payload: data }
    }

    /// The number of bytes sent, given how the socket's send went (`None`:
    /// it failed): a failure counts as nothing sent.
    pub fn bytes_sent(outcome: Option<usize>) -> (r: usize)
        ensures
            r == match outcome {
                Some(n) => n,
                None => 0,
            },
    {
        match outcome {
            Some(n) => n,
            None => 0,
        }
    }

    /// The payload of what the socket's receive handed over (`None`: it
    /// failed). A datagram from another address than the bound one, or
    /// one that is not UTF-8, gives an empty payload.
    pub fn receive(&self, incoming: Option<Incoming>) -> (r: Result<String, TransportError>)
        ensures
            match incoming {
                None => r == Err::<String, TransportError>(TransportError),
                Some(datagram) => r matches Ok(payload) && payload@ == payload_text(
                    datagram.buffer@,
                    datagram.sender@,
                    datagram.local@,
                ),
            },
    {
        let datagram = match incoming {
            None => {
                return Err(TransportError);
            },
            Some(datagram) => datagram,
        };
        if !same_text(datagram.sender.as_str(), datagram.local.as_str()) {
            return Ok(String::new());
        }
        match text_of_bytes(datagram.buffer) {
            Some(data) => Ok(trim_fill(data.as_str())),
            None => Ok(String::new()),
        }
    }

    /// One turn of the serving loop: takes what the socket's receive
    /// handed over, lets the dispatcher answer the payload, and says what
    /// to do next.
    pub fn serve<R: RegisterSpace>(
        &self,
        dispatch: &mut Dispatch<R>,
        incoming: Option<Incoming>,
    ) -> (r: SocketAction)
        ensures
            *final(dispatch) == *old(dispatch),
            served(
                endpoint(self.ip(), self.port_tx()),
                old(dispatch).controller().entries(),
                old(dispatch).controller().space(),
                received_payload(incoming),
                r@,
            ),
    {
        let payload = match self.receive(incoming) {
            Err(_) => {
                return SocketAction::Stop;
            },
            Ok(payload) => payload,
        };
        if payload.as_str().unicode_len() == 0 {
            return SocketAction::Empty;
        }
        let ghost request = payload@;
        let response = dispatch.dispatch(payload);
        let ghost text = response@;
        let action = if response.as_str().unicode_len() == 0 {
            SocketAction::Wait
        } else {
            SocketAction::Reply(self.send(response))
        };
        proof {
            match received_payload(incoming) {
                Some(found) => {
                    assert(dispatched(
                        old(dispatch).controller().entries(),
                        old(dispatch).controller().space(),
                        request_of(found),
                        text,
                    ) && action@ == reply_or_wait(endpoint(self.ip(), self.port_tx()), text));
                },
                None => {},
            }
        }
        action
    }
}

/// A datagram that comes from another address than the one the socket is
/// bound to gives an empty payload, whatever it carries. The payload of a
/// datagram depends on that datagram alone, so that a discarded one
/// leaves no trace in what is received after it.
pub proof fn law_foreign_datagram_discarded(
    buffer: Seq<u8>,
    sender: Seq<char>,
    local: Seq<char>,
)
    requires
        sender != local,
    ensures
        payload_text(buffer, sender, local) == Seq::<char>::empty(),
{
}

} // verus!
