//! The Telnet byte codec: command filtering, option negotiation and escaping.

use std::collections::VecDeque;
use vstd::prelude::*;

verus! {

/// Interpret-as-command: introduces every Telnet command, and escapes itself.
pub const IAC: u8 = 0xff;

/// The peer offers to use an option.
pub const WILL: u8 = 0xfb;

/// The peer refuses to use an option.
pub const WONT: u8 = 0xfc;

/// The peer asks this side to use an option.
pub const DO: u8 = 0xfd;

/// The peer asks this side not to use an option.
pub const DONT: u8 = 0xfe;

/// Begins a subnegotiation.
pub const SB: u8 = 0xfa;

/// Ends a subnegotiation.
pub const SE: u8 = 0xf0;

/// The binary transmission option.
pub const TELNET_BINARY: u8 = 0;

/// The echo option.
pub const TELNET_ECHO: u8 = 1;

/// The suppress-go-ahead option.
pub const TELNET_SUPPRESS_GO_AHEAD: u8 = 3;

/// What a socket operation reported.
#[derive(Clone, Copy, Debug, PartialEq, Eq, Structural)]
pub enum ErrorKind {
    ConnectionReset,
    ConnectionAborted,
    BrokenPipe,
    NotConnected,
    UnexpectedEof,
    WouldBlock,
    Interrupted,
    PermissionDenied,
    TimedOut,
    Other,
}

/// Where the decoder stands between two wire bytes.
#[derive(Clone, Copy, Debug, PartialEq, Eq, Structural)]
pub enum TelnetRxState {
    /// Outside any command.
    Data,
    /// After `IAC`.
    Iac,
    /// After `IAC` and the given negotiation command.
    Negotiation(u8),
    /// Inside a subnegotiation.
    Subnegotiation,
    /// Inside a subnegotiation, after `IAC`.
    SubnegotiationIac,
}

// ---------------------------------------------------------------------------
// Decoding, one byte at a time
// ---------------------------------------------------------------------------

/// The four commands that negotiate an option.
pub open spec fn is_negotiation(command: u8) -> bool {
    command == WILL || command == WONT || command == DO || command == DONT
}

/// The options that this client agrees to use.
pub open spec fn is_accepted(option: u8) -> bool {
    option == TELNET_BINARY || option == TELNET_ECHO || option == TELNET_SUPPRESS_GO_AHEAD
}

/// The command that answers a negotiation command: agreement to an accepted
/// option, refusal of any other, and consent to whatever the peer gives up.
pub open spec fn answer(command: u8, option: u8) -> u8 {
    if command == WILL && is_accepted(option) {
        DO
    } else if command == DO && is_accepted(option) {
        WILL
    } else if command == WILL || command == WONT {
        DONT
    } else {
        WONT
    }
}

/// The bytes that answer a negotiation.
pub open spec fn negotiation_reply(command: u8, option: u8) -> Seq<u8> {
    if is_negotiation(command) {
        seq![IAC, answer(command, option), option]
    } else {
        Seq::empty()
    }
}

/// The state after one wire byte.
pub open spec fn next_state(state: TelnetRxState, byte: u8) -> TelnetRxState {
    match state {
        TelnetRxState::Data => if byte == IAC {
            TelnetRxState::Iac
        } else {
            TelnetRxState::Data
        },
        TelnetRxState::Iac => if is_negotiation(byte) {
            TelnetRxState::Negotiation(byte)
        } else if byte == SB {
            TelnetRxState::Subnegotiation
        } else {
            TelnetRxState::Data
        },
        TelnetRxState::Negotiation(_) => TelnetRxState::Data,
        TelnetRxState::Subnegotiation => if byte == IAC {
            TelnetRxState::SubnegotiationIac
        } else {
            TelnetRxState::Subnegotiation
        },
        TelnetRxState::SubnegotiationIac => if byte == SE {
            TelnetRxState::Data
        } else {
            TelnetRxState::Subnegotiation
        },
    }
}

/// Whether a wire byte in this state is a byte of user data.
pub open spec fn is_data_byte(state: TelnetRxState, byte: u8) -> bool {
    ||| state is Data && byte != IAC
    ||| state is Iac && byte == IAC
}

/// The user data that one wire byte carries.
pub open spec fn byte_data(state: TelnetRxState, byte: u8) -> Seq<u8> {
    if is_data_byte(state, byte) {
        seq![byte]
    } else {
        Seq::empty()
    }
}

/// The reply that one wire byte calls for.
pub open spec fn byte_reply(state: TelnetRxState, byte: u8) -> Seq<u8> {
    match state {
        TelnetRxState::Negotiation(command) => negotiation_reply(command, byte),
        _ => Seq::empty(),
    }
}

// ---------------------------------------------------------------------------
// Decoding a run of bytes
// ---------------------------------------------------------------------------

/// The state after a run of wire bytes.
pub open spec fn run_state(state: TelnetRxState, bytes: Seq<u8>) -> TelnetRxState
    decreases bytes.len(),
{
    if bytes.len() == 0 {
        state
    } else {
        next_state(run_state(state, bytes.drop_last()), bytes.last())
    }
}

/// The user data in a run of wire bytes.
pub open spec fn run_data(state: TelnetRxState, bytes: Seq<u8>) -> Seq<u8>
    decreases bytes.len(),
{
    if bytes.len() == 0 {
        Seq::empty()
    } else {
        run_data(state, bytes.drop_last()) + byte_data(
            run_state(state, bytes.drop_last()),
            bytes.last(),
        )
    }
}

/// The replies that a run of wire bytes calls for.
pub open spec fn run_replies(state: TelnetRxState, bytes: Seq<u8>) -> Seq<u8>
    decreases bytes.len(),
{
    if bytes.len() == 0 {
        Seq::empty()
    } else {
        run_replies(state, bytes.drop_last()) + byte_reply(
            run_state(state, bytes.drop_last()),
            bytes.last(),
        )
    }
}

/// The wire form of user data: every `IAC` is sent twice.
pub open spec fn escaped(bytes: Seq<u8>) -> Seq<u8>
    decreases bytes.len(),
{
    if bytes.len() == 0 {
        Seq::empty()
    } else {
        escaped(bytes.drop_last()) + if bytes.last() == IAC {
            seq![IAC, IAC]
        } else {
            seq![bytes.last()]
        }
    }
}

/// The socket errors that mean no more than that the peer has gone.
pub open spec fn closes_connection(kind: ErrorKind) -> bool {
    ||| kind is ConnectionReset
    ||| kind is ConnectionAborted
    ||| kind is BrokenPipe
    ||| kind is NotConnected
    ||| kind is UnexpectedEof
}

/// Whether a socket error is an orderly end of the connection.
pub fn is_remote_disconnect(kind: ErrorKind) -> (result: bool)
    ensures
        result == closes_connection(kind),
{
    matches!(
        kind,
        ErrorKind::ConnectionReset
            | ErrorKind::ConnectionAborted
            | ErrorKind::BrokenPipe
            | ErrorKind::NotConnected
            | ErrorKind::UnexpectedEof
    )
}

/// What waiting for the socket to become readable came to.
#[derive(Clone, Copy, Debug, PartialEq, Eq, Structural)]
pub enum Readiness {
    Ready,
    Failed(ErrorKind),
    TimedOut,
}

/// What one non-blocking receive came to; no bytes mean the end of the stream.
#[derive(Debug)]
pub enum Received {
    Bytes(Vec<u8>),
    Failed(ErrorKind),
}

/// What a blocking read has to do next.
#[derive(Debug)]
pub enum ReadStep {
    /// Return zero bytes: nothing was asked for, or the peer has gone.
    ReturnEmpty,
    /// Return the error that was just reported.
    ReturnError,
    /// Return a timeout error.
    ReturnTimeout,
    /// Wait until the socket is readable.
    AwaitReadable,
    /// Receive without blocking.
    Receive,
    /// Send these bytes, and then ask again.
    SendReplies(Vec<u8>),
    /// Hand the decoded bytes over.
    Deliver,
}

/// What an interactive read brought.
#[derive(Debug)]
pub enum NetworkRead {
    Data(Vec<u8>),
    Idle,
    Closed,
}

/// What a blocking read does after waiting for the socket.
pub open spec fn readable_step(outcome: Readiness) -> ReadStep {
    match outcome {
        Readiness::Ready => ReadStep::Receive,
        Readiness::Failed(kind) => if closes_connection(kind) {
            ReadStep::ReturnEmpty
        } else {
            ReadStep::ReturnError
        },
        Readiness::TimedOut => ReadStep::ReturnTimeout,
    }
}

/// What a receive does to the protocol state, and what a blocking read does
/// after it: what came is decoded, and the replies it calls for are sent
/// before anything is delivered.
pub open spec fn receive_step(
    before: TelnetCodec,
    outcome: Received,
    after: TelnetCodec,
    step: ReadStep,
) -> bool {
    match outcome {
        Received::Bytes(bytes) => {
            let replies = before.replies() + run_replies(before.state(), bytes@);
            &&& after.state() == run_state(before.state(), bytes@)
            &&& after.data() == before.data() + run_data(before.state(), bytes@)
            &&& if bytes@.len() == 0 {
                &&& step == ReadStep::ReturnEmpty
                &&& after.replies() == before.replies()
            } else if replies.len() == 0 {
                &&& step == after.settled()
                &&& after.replies() == Seq::<u8>::empty()
            } else {
                &&& step matches ReadStep::SendReplies(sent)
                &&& sent@ == replies
                &&& after.replies() == Seq::<u8>::empty()
            }
        },
        Received::Failed(kind) => {
            &&& after == before
            &&& step == (if kind is WouldBlock {
                ReadStep::AwaitReadable
            } else if closes_connection(kind) {
                ReadStep::ReturnEmpty
            } else {
                ReadStep::ReturnError
            })
        },
    }
}

/// What handing decoded bytes over does: as many as there are or fit go to the
/// begin of `output`, and the others stay.
pub open spec fn delivery_step(
    before: TelnetCodec,
    output: Seq<u8>,
    after: TelnetCodec,
    filled: Seq<u8>,
    count: usize,
) -> bool {
    &&& count == (if output.len() < before.data().len() {
        output.len()
    } else {
        before.data().len()
    })
    &&& filled == before.data().take(count as int) + output.skip(count as int)
    &&& after.data() == before.data().skip(count as int)
    &&& after.state() == before.state()
    &&& after.replies() == before.replies()
}

/// What a receive does to the protocol state, and what an interactive read
/// makes of it. Replies stay queued.
pub open spec fn interactive_step(
    before: TelnetCodec,
    outcome: Received,
    after: TelnetCodec,
    result: Result<NetworkRead, ErrorKind>,
) -> bool {
    match outcome {
        Received::Bytes(bytes) => {
            let data = before.data() + run_data(before.state(), bytes@);
            &&& after.state() == run_state(before.state(), bytes@)
            &&& after.replies() == before.replies() + run_replies(before.state(), bytes@)
            &&& if bytes@.len() == 0 {
                &&& result == Ok::<NetworkRead, ErrorKind>(NetworkRead::Closed)
                &&& after.data() == before.data()
            } else if data.len() == 0 {
                &&& result == Ok::<NetworkRead, ErrorKind>(NetworkRead::Idle)
                &&& after.data() == Seq::<u8>::empty()
            } else {
                &&& result matches Ok(NetworkRead::Data(taken))
                &&& taken@ == data
                &&& after.data() == Seq::<u8>::empty()
            }
        },
        Received::Failed(kind) => {
            &&& after == before
            &&& result == (if kind is WouldBlock {
                Ok::<NetworkRead, ErrorKind>(NetworkRead::Idle)
            } else if closes_connection(kind) {
                Ok(NetworkRead::Closed)
            } else {
                Err(kind)
            })
        },
    }
}

/// The bytes that an interactive read brought.
pub open spec fn brought(result: Result<NetworkRead, ErrorKind>) -> Seq<u8> {
    match result {
        Ok(NetworkRead::Data(data)) => data@,
        _ => Seq::empty(),
    }
}

/// The message of the error that ends a read which waited too long.
pub fn read_timeout_message() -> (message: String)
    ensures
        message@ == "Telnet read timed out"@,
{
    "Telnet read timed out".to_owned()
}

/// The Telnet protocol state of one connection.
pub struct TelnetCodec {
    rx_state: TelnetRxState,
    decoded: VecDeque<u8>,
    negotiation_replies: Vec<u8>,
}

impl TelnetCodec {
    /// Where the decoder stands.
    pub closed spec fn state(self) -> TelnetRxState {
        self.rx_state
    }

    /// The decoded bytes that nobody has taken yet.
    pub closed spec fn data(self) -> Seq<u8> {
        self.decoded@
    }

    /// The replies that have not been sent yet.
    pub closed spec fn replies(self) -> Seq<u8> {
        self.negotiation_replies@
    }

    /// The state of a fresh connection.
    pub fn new() -> (codec: Self)
        ensures
            codec.state() == TelnetRxState::Data,
            codec.data() == Seq::<u8>::empty(),
            codec.replies() == Seq::<u8>::empty(),
    {
        TelnetCodec {
            rx_state: TelnetRxState::Data,
            decoded: VecDeque::new(),
            negotiation_replies: Vec::new(),
        }
    }

    /// Decodes a run of wire bytes: keeps the user data, queues the replies.
    pub fn process_wire_bytes(&mut self, bytes: &[u8])
        ensures
            final(self).state() == run_state(old(self).state(), bytes@),
            final(self).data() == old(self).data() + run_data(old(self).state(), bytes@),
            final(self).replies() == old(self).replies() + run_replies(old(self).state(), bytes@),
    {
        for i in 0..bytes.len()
            invariant
                self.state() == run_state(old(self).state(), bytes@.take(i as int)),
                self.data() == old(self).data() + run_data(
                    old(self).state(),
                    bytes@.take(i as int),
                ),
                self.replies() == old(self).replies() + run_replies(
                    old(self).state(),
                    bytes@.take(i as int),
                ),
        {
            proof {
                assert(bytes@.take(i + 1).drop_last() == bytes@.take(i as int));
            }
            if let Some(byte) = self.process_wire_byte(bytes[i]) {
                self.decoded.push_back(byte);
            }
        }
        assert(bytes@.take(bytes@.len() as int) == bytes@);
    }

    /// Decodes one wire byte; the result is the byte of user data that it
    /// carries, which is not queued.
    pub fn process_wire_byte(&mut self, byte: u8) -> (result: Option<u8>)
        ensures
            result == (if is_data_byte(old(self).state(), byte) {
                Some(byte)
            } else {
                None
            }),
            final(self).state() == next_state(old(self).state(), byte),
            final(self).data() == old(self).data(),
            final(self).replies() == old(self).replies() + byte_reply(old(self).state(), byte),
    {
        match self.rx_state {
            TelnetRxState::Data => if byte == IAC {
                self.rx_state = TelnetRxState::Iac;
                None
            } else {
                Some(byte)
            },
            TelnetRxState::Iac => match byte {
                IAC => {
                    self.rx_state = TelnetRxState::Data;
                    Some(IAC)
                },
                WILL | WONT | DO | DONT => {
                    self.rx_state = TelnetRxState::Negotiation(byte);
                    None
                },
                SB => {
                    self.rx_state = TelnetRxState::Subnegotiation;
                    None
                },
                _ => {
                    self.rx_state = TelnetRxState::Data;
                    None
                },
            },
            TelnetRxState::Negotiation(command) => {
                self.queue_negotiation_reply(command, byte);
                self.rx_state = TelnetRxState::Data;
                None
            },
            TelnetRxState::Subnegotiation => {
                if byte == IAC {
                    self.rx_state = TelnetRxState::SubnegotiationIac;
                }
                None
            },
            TelnetRxState::SubnegotiationIac => {
                self.rx_state =
                if byte == SE {
                    TelnetRxState::Data
                } else {
                    TelnetRxState::Subnegotiation
                };
                None
            },
        }
    }

    /// Queues the answer to a negotiation command; anything else has none.
    pub fn queue_negotiation_reply(&mut self, command: u8, option: u8)
        ensures
            final(self).state() == old(self).state(),
            final(self).data() == old(self).data(),
            final(self).replies() == old(self).replies() + negotiation_reply(command, option),
    {
        let accepted = matches!(option, TELNET_BINARY | TELNET_ECHO | TELNET_SUPPRESS_GO_AHEAD);
        let reply: u8 = match command {
            WILL if accepted => DO,
            WILL => DONT,
            DO if accepted => WILL,
            DO => WONT,
            WONT => DONT,
            DONT => WONT,
            _ => {
                return ;
            },
        };
        self.negotiation_replies.push(IAC);
        self.negotiation_replies.push(reply);
        self.negotiation_replies.push(option);
    }

    /// Takes the replies that wait to be sent, in the order they were queued.
    pub fn take_negotiation_replies(&mut self) -> (replies: Vec<u8>)
        ensures
            replies@ == old(self).replies(),
            final(self).replies() == Seq::<u8>::empty(),
            final(self).state() == old(self).state(),
            final(self).data() == old(self).data(),
    {
        let mut replies: Vec<u8> = Vec::new();
        replies.append(&mut self.negotiation_replies);
        replies
    }

    /// Takes all decoded bytes.
    pub fn take_decoded(&mut self) -> (data: Vec<u8>)
        ensures
            data@ == old(self).data(),
            final(self).data() == Seq::<u8>::empty(),
            final(self).state() == old(self).state(),
            final(self).replies() == old(self).replies(),
    {
        let mut data: Vec<u8> = Vec::new();
        let count: usize = self.decoded.len();
        for i in 0..count
            invariant
                count == old(self).decoded@.len(),
                data@ == old(self).decoded@.take(i as int),
                self.decoded@ == old(self).decoded@.skip(i as int),
                self.rx_state == old(self).rx_state,
                self.negotiation_replies@ == old(self).negotiation_replies@,
        {
            if let Some(byte) = self.decoded.pop_front() {
                data.push(byte);
            }
        }
        data
    }

    /// Moves decoded bytes into `output`, as many as there are or fit, and
    /// returns their number.
    pub fn read_decoded(&mut self, output: &mut [u8]) -> (count: usize)
        ensures
            delivery_step(*old(self), old(output)@, *final(self), final(output)@, count),
    {
        let count: usize = if output.len() < self.decoded.len() {
            output.len()
        } else {
            self.decoded.len()
        };
        for i in 0..count
            invariant
                count <= old(self).decoded@.len(),
                count <= old(output)@.len(),
                output@ == old(self).decoded@.take(i as int) + old(output)@.skip(i as int),
                self.decoded@ == old(self).decoded@.skip(i as int),
                self.rx_state == old(self).rx_state,
                self.negotiation_replies@ == old(self).negotiation_replies@,
        {
            if let Some(byte) = self.decoded.pop_front() {
                output[i] = byte;
            }
        }
        count
    }

    /// The step that follows once no reply is waiting: decoded bytes are
    /// delivered, and without any the read waits for more.
    pub open spec fn settled(self) -> ReadStep {
        if self.data().len() == 0 {
            ReadStep::AwaitReadable
        } else {
            ReadStep::Deliver
        }
    }

    /// The first step of a blocking read of up to `capacity` bytes.
    pub open spec fn first_step(self, capacity: usize) -> ReadStep {
        if capacity == 0 {
            ReadStep::ReturnEmpty
        } else {
            self.settled()
        }
    }

    /// Begins a blocking read of up to `capacity` bytes.
    pub fn begin_read(&self, capacity: usize) -> (step: ReadStep)
        ensures
            step == self.first_step(capacity),
    {
        if capacity == 0 {
            ReadStep::ReturnEmpty
        } else {
            self.continue_read()
        }
    }

    /// Goes on with a blocking read after its replies have been sent.
    pub fn continue_read(&self) -> (step: ReadStep)
        ensures
            step == self.settled(),
    {
        if self.decoded.len() == 0 {
            ReadStep::AwaitReadable
        } else {
            ReadStep::Deliver
        }
    }

    /// Goes on with a blocking read after waiting for the socket.
    pub fn on_readable(&self, outcome: Readiness) -> (step: ReadStep)
        ensures
            step == readable_step(outcome),
    {
        match outcome {
            Readiness::Ready => ReadStep::Receive,
            Readiness::Failed(kind) => if is_remote_disconnect(kind) {
                ReadStep::ReturnEmpty
            } else {
                ReadStep::ReturnError
            },
            Readiness::TimedOut => ReadStep::ReturnTimeout,
        }
    }

    /// Goes on with a blocking read after a receive: decodes what came, and
    /// sends the replies it calls for before anything is delivered.
    pub fn on_received(&mut self, outcome: Received) -> (step: ReadStep)
        ensures
            receive_step(*old(self), outcome, *final(self), step),
    {
        match outcome {
            Received::Bytes(bytes) => {
                if bytes.len() == 0 {
                    return ReadStep::ReturnEmpty;
                }
                self.process_wire_bytes(bytes.as_slice());
                if self.negotiation_replies.len() == 0 {
                    self.continue_read()
                } else {
                    ReadStep::SendReplies(self.take_negotiation_replies())
                }
            },
            Received::Failed(kind) => if matches!(kind, ErrorKind::WouldBlock) {
                ReadStep::AwaitReadable
            } else if is_remote_disconnect(kind) {
                ReadStep::ReturnEmpty
            } else {
                ReadStep::ReturnError
            },
        }
    }

    /// Takes what has been decoded as the result of an interactive read.
    pub fn take_network_read(&mut self) -> (read: NetworkRead)
        ensures
            if old(self).data().len() == 0 {
                read == NetworkRead::Idle
            } else {
                read matches NetworkRead::Data(data) && data@ == old(self).data()
            },
            final(self).data() == Seq::<u8>::empty(),
            final(self).state() == old(self).state(),
            final(self).replies() == old(self).replies(),
    {
        if self.decoded.len() == 0 {
            NetworkRead::Idle
        } else {
            NetworkRead::Data(self.take_decoded())
        }
    }

    /// Turns a receive into the result of an interactive read. Replies stay
    /// queued: they are sent once the data has been shown.
    pub fn on_interactive(&mut self, outcome: Received) -> (result: Result<NetworkRead, ErrorKind>)
        ensures
            interactive_step(*old(self), outcome, *final(self), result),
    {
        match outcome {
            Received::Bytes(bytes) => {
                if bytes.len() == 0 {
                    return Ok(NetworkRead::Closed);
                }
                self.process_wire_bytes(bytes.as_slice());
                Ok(self.take_network_read())
            },
            Received::Failed(kind) => if matches!(kind, ErrorKind::WouldBlock) {
                Ok(NetworkRead::Idle)
            } else if is_remote_disconnect(kind) {
                Ok(NetworkRead::Closed)
            } else {
                Err(kind)
            },
        }
    }
}

/// The wire form of user data.
pub fn escape(bytes: &[u8]) -> (encoded: Vec<u8>)
    ensures
        encoded@ == escaped(bytes@),
{
    let mut encoded: Vec<u8> = Vec::new();
    for i in 0..bytes.len()
        invariant
            encoded@ == escaped(bytes@.take(i as int)),
    {
        assert(bytes@.take(i + 1).drop_last() == bytes@.take(i as int));
        encoded.push(bytes[i]);
        if bytes[i] == IAC {
            encoded.push(IAC);
        }
    }
    assert(bytes@.take(bytes@.len() as int) == bytes@);
    encoded
}

// ---------------------------------------------------------------------------
// Laws
// ---------------------------------------------------------------------------

/// How the wire bytes are cut into chunks does not matter: decoding two runs
/// one after the other is decoding them as one.
pub proof fn law_decoding_is_incremental(state: TelnetRxState, first: Seq<u8>, second: Seq<u8>)
    ensures
        run_state(state, first + second) == run_state(run_state(state, first), second),
        run_data(state, first + second) == run_data(state, first) + run_data(
            run_state(state, first),
            second,
        ),
        run_replies(state, first + second) == run_replies(state, first) + run_replies(
            run_state(state, first),
            second,
        ),
    decreases second.len(),
{
    if second.len() == 0 {
        assert(first + second == first);
    } else {
        law_decoding_is_incremental(state, first, second.drop_last());
        assert((first + second).drop_last() == first + second.drop_last());
        assert((first + second).last() == second.last());
    }
}

/// The wire form of a concatenation is the concatenation of the wire forms.
pub proof fn law_escaping_is_incremental(first: Seq<u8>, second: Seq<u8>)
    ensures
        escaped(first + second) == escaped(first) + escaped(second),
    decreases second.len(),
{
    if second.len() == 0 {
        assert(first + second == first);
    } else {
        law_escaping_is_incremental(first, second.drop_last());
        assert((first + second).drop_last() == first + second.drop_last());
        assert((first + second).last() == second.last());
    }
}

/// Whatever user data is sent, its wire form decodes to the same bytes, calls
/// for no reply, and leaves the decoder outside any command.
pub proof fn law_escaped_data_decodes_to_itself(data: Seq<u8>)
    ensures
        run_state(TelnetRxState::Data, escaped(data)) == TelnetRxState::Data,
        run_data(TelnetRxState::Data, escaped(data)) == data,
        run_replies(TelnetRxState::Data, escaped(data)) == Seq::<u8>::empty(),
    decreases data.len(),
{
    if data.len() > 0 {
        let tail: Seq<u8> = if data.last() == IAC {
            seq![IAC, IAC]
        } else {
            seq![data.last()]
        };
        law_escaped_data_decodes_to_itself(data.drop_last());
        law_decoding_is_incremental(TelnetRxState::Data, escaped(data.drop_last()), tail);
        reveal_with_fuel(run_state, 3);
        reveal_with_fuel(run_data, 3);
        reveal_with_fuel(run_replies, 3);
        if data.last() == IAC {
            assert(tail.drop_last() == seq![IAC]);
            assert(tail.drop_last().drop_last() == Seq::<u8>::empty());
        } else {
            assert(tail.drop_last() == Seq::<u8>::empty());
        }
        assert(run_data(TelnetRxState::Data, tail) == seq![data.last()]);
        assert(run_replies(TelnetRxState::Data, tail) == Seq::<u8>::empty());
        assert(data == data.drop_last() + seq![data.last()]);
    }
}

/// Every negotiation is answered at once and by one command for the same
/// option: an accepted option is agreed to, any other is refused, and an
/// option that the peer gives up is given up.
pub proof fn law_every_negotiation_is_answered(command: u8, option: u8)
    requires
        is_negotiation(command),
    ensures
        run_state(TelnetRxState::Data, seq![IAC, command, option]) == TelnetRxState::Data,
        run_data(TelnetRxState::Data, seq![IAC, command, option]) == Seq::<u8>::empty(),
        run_replies(TelnetRxState::Data, seq![IAC, command, option]) == seq![
            IAC,
            answer(command, option),
            option,
        ],
        command == WILL ==> (answer(command, option) == DO <==> is_accepted(option)),
        command == DO ==> (answer(command, option) == WILL <==> is_accepted(option)),
        command == WILL || command == WONT ==> answer(command, option) == DO || answer(
            command,
            option,
        ) == DONT,
        command == DO || command == DONT ==> answer(command, option) == WILL || answer(
            command,
            option,
        ) == WONT,
        command == WONT ==> answer(command, option) == DONT,
        command == DONT ==> answer(command, option) == WONT,
{
    let wire = seq![IAC, command, option];
    assert(wire.drop_last() == seq![IAC, command]);
    assert(wire.drop_last().drop_last() == seq![IAC]);
    assert(wire.drop_last().drop_last().drop_last() == Seq::<u8>::empty());
    reveal_with_fuel(run_state, 4);
    reveal_with_fuel(run_data, 4);
    reveal_with_fuel(run_replies, 4);
    assert(run_data(TelnetRxState::Data, wire) == Seq::<u8>::empty());
    assert(run_replies(TelnetRxState::Data, wire) == seq![IAC, answer(command, option), option]);
}

/// The options that are agreed to are binary transmission, echo and the
/// suppression of go-ahead, which have the numbers 0, 1 and 3: to use one of
/// them, on either side, is agreed to, and to use any other is refused. What
/// the peer gives up or forbids is given up, whatever it is.
pub proof fn law_options_by_number(option: u8)
    ensures
        ({
            let replies = |command: u8|
                run_replies(TelnetRxState::Data, seq![0xffu8, command, option]);
            &&& option == 0 || option == 1 || option == 3 ==> {
                &&& replies(0xfd) == seq![0xffu8, 0xfb, option]
                &&& replies(0xfb) == seq![0xffu8, 0xfd, option]
            }
            &&& option != 0 && option != 1 && option != 3 ==> {
                &&& replies(0xfd) == seq![0xffu8, 0xfc, option]
                &&& replies(0xfb) == seq![0xffu8, 0xfe, option]
            }
            &&& replies(0xfc) == seq![0xffu8, 0xfe, option]
            &&& replies(0xfe) == seq![0xffu8, 0xfc, option]
        }),
{
    law_every_negotiation_is_answered(0xfd, option);
    law_every_negotiation_is_answered(0xfb, option);
    law_every_negotiation_is_answered(0xfc, option);
    law_every_negotiation_is_answered(0xfe, option);
}

/// Only the four negotiation commands have an answer.
pub proof fn law_nothing_else_is_answered(command: u8, option: u8)
    requires
        command < 0xfb || command == 0xff,
    ensures
        negotiation_reply(command, option) == Seq::<u8>::empty(),
{
}

/// A command without an option, which is any below 250, is passed over: it is
/// neither data nor answered, and decoding goes on behind it.
pub proof fn law_other_commands_are_passed_over(command: u8)
    requires
        command < 0xfa,
    ensures
        run_state(TelnetRxState::Data, seq![0xffu8, command]) == TelnetRxState::Data,
        run_data(TelnetRxState::Data, seq![0xffu8, command]) == Seq::<u8>::empty(),
        run_replies(TelnetRxState::Data, seq![0xffu8, command]) == Seq::<u8>::empty(),
{
    let wire = seq![0xffu8, command];
    assert(wire.drop_last() == seq![0xffu8]);
    assert(wire.drop_last().drop_last() == Seq::<u8>::empty());
    reveal_with_fuel(run_state, 3);
    reveal_with_fuel(run_data, 3);
    reveal_with_fuel(run_replies, 3);
}

/// Bytes without a 255 among them are sent as they are, and are taken as they
/// come; a 255 is sent twice, and nothing else is added anywhere.
pub proof fn law_only_iac_is_doubled(bytes: Seq<u8>, rest: Seq<u8>)
    requires
        forall|i: int| 0 <= i < bytes.len() ==> bytes[i] != 0xff,
    ensures
        escaped(bytes) == bytes,
        run_data(TelnetRxState::Data, bytes) == bytes,
        run_state(TelnetRxState::Data, bytes) == TelnetRxState::Data,
        run_replies(TelnetRxState::Data, bytes) == Seq::<u8>::empty(),
        escaped(bytes + seq![0xffu8] + rest) == bytes + seq![0xffu8, 0xff] + escaped(rest),
    decreases bytes.len(),
{
    lemma_plain_bytes_are_not_escaped(bytes);
    law_escaped_data_decodes_to_itself(bytes);
    law_escaping_is_incremental(bytes + seq![0xffu8], rest);
    law_escaping_is_incremental(bytes, seq![0xffu8]);
    assert(seq![0xffu8].drop_last() == Seq::<u8>::empty());
    reveal_with_fuel(escaped, 2);
    assert(escaped(seq![0xffu8]) == seq![0xffu8, 0xff]);
}

proof fn lemma_plain_bytes_are_not_escaped(bytes: Seq<u8>)
    requires
        forall|i: int| 0 <= i < bytes.len() ==> bytes[i] != 0xff,
    ensures
        escaped(bytes) == bytes,
    decreases bytes.len(),
{
    if bytes.len() > 0 {
        lemma_plain_bytes_are_not_escaped(bytes.drop_last());
        assert(bytes == bytes.drop_last() + seq![bytes.last()]);
    }
}

/// A subnegotiation goes on until a 255 that a 240 follows: any other byte, and
/// any other pair that begins with a 255, is passed over and stays within it.
pub proof fn law_subnegotiation_ends_at_its_end(byte: u8)
    ensures
        run_state(TelnetRxState::Data, seq![0xffu8, 0xfa]) == TelnetRxState::Subnegotiation,
        ({
            let inside = TelnetRxState::Subnegotiation;
            &&& byte != 0xff ==> run_state(inside, seq![byte]) == inside
            &&& run_state(inside, seq![0xffu8, byte]) == (if byte == 0xf0 {
                TelnetRxState::Data
            } else {
                inside
            })
            &&& run_data(inside, seq![0xffu8, byte]) == Seq::<u8>::empty()
            &&& run_data(inside, seq![byte]) == Seq::<u8>::empty()
            &&& run_replies(inside, seq![0xffu8, byte]) == Seq::<u8>::empty()
            &&& run_replies(inside, seq![byte]) == Seq::<u8>::empty()
        }),
{
    let open = seq![0xffu8, 0xfa];
    let pair = seq![0xffu8, byte];
    assert(open.drop_last() == seq![0xffu8]);
    assert(pair.drop_last() == seq![0xffu8]);
    assert(seq![0xffu8].drop_last() == Seq::<u8>::empty());
    assert(seq![byte].drop_last() == Seq::<u8>::empty());
    reveal_with_fuel(run_state, 3);
    reveal_with_fuel(run_data, 3);
    reveal_with_fuel(run_replies, 3);
}

/// A subnegotiation leaves no trace, whatever its parameters are; like user
/// data they are sent in their wire form.
pub proof fn law_subnegotiation_is_skipped(parameters: Seq<u8>)
    ensures
        ({
            let wire = seq![IAC, SB] + escaped(parameters) + seq![IAC, SE];
            &&& run_state(TelnetRxState::Data, wire) == TelnetRxState::Data
            &&& run_data(TelnetRxState::Data, wire) == Seq::<u8>::empty()
            &&& run_replies(TelnetRxState::Data, wire) == Seq::<u8>::empty()
        }),
{
    let open = seq![IAC, SB];
    let close = seq![IAC, SE];
    let body = escaped(parameters);
    law_decoding_is_incremental(TelnetRxState::Data, open, body);
    law_decoding_is_incremental(TelnetRxState::Data, open + body, close);
    assert(open.drop_last() == seq![IAC]);
    assert(open.drop_last().drop_last() == Seq::<u8>::empty());
    assert(close.drop_last() == seq![IAC]);
    assert(close.drop_last().drop_last() == Seq::<u8>::empty());
    reveal_with_fuel(run_state, 3);
    reveal_with_fuel(run_data, 3);
    reveal_with_fuel(run_replies, 3);
    lemma_subnegotiation_parameters(parameters);
}

/// Within a subnegotiation, the wire form of any bytes is passed over.
proof fn lemma_subnegotiation_parameters(parameters: Seq<u8>)
    ensures
        ({
            let inside = TelnetRxState::Subnegotiation;
            &&& run_state(inside, escaped(parameters)) == inside
            &&& run_data(inside, escaped(parameters)) == Seq::<u8>::empty()
            &&& run_replies(inside, escaped(parameters)) == Seq::<u8>::empty()
        }),
    decreases parameters.len(),
{
    if parameters.len() > 0 {
        let inside = TelnetRxState::Subnegotiation;
        let before = escaped(parameters.drop_last());
        let tail: Seq<u8> = if parameters.last() == IAC {
            seq![IAC, IAC]
        } else {
            seq![parameters.last()]
        };
        lemma_subnegotiation_parameters(parameters.drop_last());
        law_decoding_is_incremental(inside, before, tail);
        reveal_with_fuel(run_state, 3);
        reveal_with_fuel(run_data, 3);
        reveal_with_fuel(run_replies, 3);
        if parameters.last() == IAC {
            assert(tail.drop_last() == seq![IAC]);
            assert(tail.drop_last().drop_last() == Seq::<u8>::empty());
        } else {
            assert(tail.drop_last() == Seq::<u8>::empty());
        }
    }
}

/// Replies are commands and nothing else: a peer that decodes them finds no
/// user data in them, and ends where it began.
pub proof fn law_replies_carry_no_data(state: TelnetRxState, bytes: Seq<u8>)
    ensures
        run_data(TelnetRxState::Data, run_replies(state, bytes)) == Seq::<u8>::empty(),
        run_state(TelnetRxState::Data, run_replies(state, bytes)) == TelnetRxState::Data,
    decreases bytes.len(),
{
    if bytes.len() > 0 {
        let before = run_state(state, bytes.drop_last());
        let earlier = run_replies(state, bytes.drop_last());
        let reply = byte_reply(before, bytes.last());
        law_replies_carry_no_data(state, bytes.drop_last());
        law_decoding_is_incremental(TelnetRxState::Data, earlier, reply);
        if reply.len() > 0 {
            let command = before->Negotiation_0;
            law_every_negotiation_is_answered(answer(command, bytes.last()), bytes.last());
        } else {
            assert(earlier + reply == earlier);
        }
    }
}

// ---------------------------------------------------------------------------
// Whole reads
// ---------------------------------------------------------------------------

/// Delivering splits the decoded bytes in two: the first part has gone to the
/// begin of the output, the second is still there, and none is left behind
/// while the output has room. The rest of the output is as it was.
pub proof fn law_delivery_splits_the_data(
    before: TelnetCodec,
    output: Seq<u8>,
    after: TelnetCodec,
    filled: Seq<u8>,
    count: usize,
)
    requires
        delivery_step(before, output, after, filled, count),
    ensures
        count <= output.len(),
        filled.len() == output.len(),
        filled.take(count as int) + after.data() == before.data(),
        filled.skip(count as int) == output.skip(count as int),
        count < output.len() ==> after.data().len() == 0,
        after.state() == before.state(),
        after.replies() == before.replies(),
{
    assert(filled.take(count as int) == before.data().take(count as int));
}

/// A socket error of one of five kinds means that the peer has gone, which
/// ends a read without an error, as the end of the stream does; a read that
/// would block goes on; any other error is reported.
pub proof fn law_only_these_errors_close(
    kind: ErrorKind,
    before: TelnetCodec,
    after: TelnetCodec,
    step: ReadStep,
    result: Result<NetworkRead, ErrorKind>,
)
    requires
        receive_step(before, Received::Failed(kind), after, step),
        interactive_step(before, Received::Failed(kind), after, result),
    ensures
        ({
            let gone = match kind {
                ErrorKind::ConnectionReset | ErrorKind::ConnectionAborted => true,
                ErrorKind::BrokenPipe | ErrorKind::NotConnected => true,
                ErrorKind::UnexpectedEof => true,
                _ => false,
            };
            &&& after == before
            &&& closes_connection(kind) <==> gone
            &&& readable_step(Readiness::Failed(kind)) is ReturnEmpty <==> gone
            &&& readable_step(Readiness::Failed(kind)) is ReturnError <==> !gone
            &&& step is ReturnEmpty <==> gone
            &&& step is AwaitReadable <==> kind is WouldBlock
            &&& step is ReturnError <==> !gone && !(kind is WouldBlock)
            &&& (result matches Ok(NetworkRead::Closed)) <==> gone
            &&& (result matches Ok(NetworkRead::Idle)) <==> kind is WouldBlock
            &&& !gone && !(kind is WouldBlock) ==> result == Err::<NetworkRead, ErrorKind>(kind)
        }),
{
}

/// A socket that is ready is read from, and one that is not in time ends the
/// read with a timeout.
pub proof fn law_readiness_is_followed()
    ensures
        readable_step(Readiness::Ready) is Receive,
        readable_step(Readiness::TimedOut) is ReturnTimeout,
{
}

/// Without replies to send, a read delivers exactly where it has something to
/// deliver, and waits otherwise; it begins in that way too, unless nothing was
/// asked for.
pub proof fn law_data_is_delivered_at_once(codec: TelnetCodec, capacity: usize)
    ensures
        codec.first_step(capacity) is ReturnEmpty <==> capacity == 0,
        capacity > 0 ==> (codec.first_step(capacity) is Deliver <==> codec.data().len() > 0),
        capacity > 0 ==> (codec.first_step(capacity) is AwaitReadable <==> codec.data().len()
            == 0),
        codec.settled() is Deliver <==> codec.data().len() > 0,
        codec.settled() is AwaitReadable <==> codec.data().len() == 0,
{
}

/// Interactive reads bring all user data, in order and at once, and owe the
/// replies to all of it, however the wire bytes were cut.
pub proof fn law_interactive_reads_bring_everything(
    before: TelnetCodec,
    first: Vec<u8>,
    between: TelnetCodec,
    first_result: Result<NetworkRead, ErrorKind>,
    second: Vec<u8>,
    after: TelnetCodec,
    second_result: Result<NetworkRead, ErrorKind>,
)
    requires
        interactive_step(before, Received::Bytes(first), between, first_result),
        interactive_step(between, Received::Bytes(second), after, second_result),
        first@.len() > 0,
        second@.len() > 0,
    ensures
        brought(first_result) + brought(second_result) == before.data() + run_data(
            before.state(),
            first@ + second@,
        ),
        after.data() == Seq::<u8>::empty(),
        after.state() == run_state(before.state(), first@ + second@),
        after.replies() == before.replies() + run_replies(before.state(), first@ + second@),
        first_result matches Ok(NetworkRead::Data(data)) ==> data@.len() > 0,
        !(first_result matches Ok(NetworkRead::Closed)),
        first_result is Ok,
{
    law_decoding_is_incremental(before.state(), first@, second@);
    assert(between.data() + run_data(between.state(), second@) == run_data(
        between.state(),
        second@,
    ));
    assert(brought(first_result) == before.data() + run_data(before.state(), first@));
    assert(brought(second_result) == run_data(between.state(), second@));
}

/// A receive without bytes is the end of the stream, and changes nothing.
pub proof fn law_no_bytes_end_the_stream(
    before: TelnetCodec,
    bytes: Vec<u8>,
    after: TelnetCodec,
    step: ReadStep,
    interactive_after: TelnetCodec,
    result: Result<NetworkRead, ErrorKind>,
)
    requires
        receive_step(before, Received::Bytes(bytes), after, step),
        interactive_step(before, Received::Bytes(bytes), interactive_after, result),
    ensures
        step is ReturnEmpty <==> bytes@.len() == 0,
        (result matches Ok(NetworkRead::Closed)) <==> bytes@.len() == 0,
        bytes@.len() == 0 ==> {
            &&& after.data() == before.data()
            &&& after.state() == before.state()
            &&& after.replies() == before.replies()
            &&& interactive_after.data() == before.data()
            &&& interactive_after.state() == before.state()
            &&& interactive_after.replies() == before.replies()
        },
{
}

/// Where a blocking read stands: the protocol state, and what is done next.
pub struct ReadPoint {
    pub codec: TelnetCodec,
    pub step: ReadStep,
}

/// What became of the step that a blocking read took.
pub enum ReadEvent {
    /// The socket was waited for.
    Waited(Readiness),
    /// Something was received.
    Got(Received),
    /// The replies were sent.
    Sent,
}

/// A blocking read goes from one point to the next.
pub open spec fn read_advances(before: ReadPoint, event: ReadEvent, after: ReadPoint) -> bool {
    match (before.step, event) {
        (ReadStep::AwaitReadable, ReadEvent::Waited(outcome)) => {
            &&& after.codec == before.codec
            &&& after.step == readable_step(outcome)
        },
        (ReadStep::Receive, ReadEvent::Got(outcome)) => receive_step(
            before.codec,
            outcome,
            after.codec,
            after.step,
        ),
        (ReadStep::SendReplies(_), ReadEvent::Sent) => {
            &&& after.codec == before.codec
            &&& after.step == after.codec.settled()
        },
        _ => false,
    }
}

/// A blocking read of up to `capacity` bytes, from its begin to some point.
pub open spec fn is_read(
    points: Seq<ReadPoint>,
    events: Seq<ReadEvent>,
    capacity: usize,
) -> bool {
    &&& points.len() == events.len() + 1
    &&& points[0].step == points[0].codec.first_step(capacity)
    &&& forall|i: int|
        0 <= i < events.len() ==> read_advances(
            points[i],
            #[trigger] events[i],
            points[i + 1],
        )
}

/// The wire bytes that were received.
pub open spec fn consumed(events: Seq<ReadEvent>) -> Seq<u8>
    decreases events.len(),
{
    if events.len() == 0 {
        Seq::empty()
    } else {
        consumed(events.drop_last()) + match events.last() {
            ReadEvent::Got(Received::Bytes(bytes)) => bytes@,
            _ => Seq::empty(),
        }
    }
}

/// The bytes that were handed over to be sent.
pub open spec fn sent(points: Seq<ReadPoint>) -> Seq<u8>
    decreases points.len(),
{
    if points.len() == 0 {
        Seq::empty()
    } else {
        sent(points.drop_last()) + match points.last().step {
            ReadStep::SendReplies(replies) => replies@,
            _ => Seq::empty(),
        }
    }
}

/// Whether the peer has gone, by what became of a step.
pub open spec fn ends_stream(event: ReadEvent) -> bool {
    match event {
        ReadEvent::Waited(Readiness::Failed(kind)) => closes_connection(kind),
        ReadEvent::Got(Received::Bytes(bytes)) => bytes@.len() == 0,
        ReadEvent::Got(Received::Failed(kind)) => closes_connection(kind),
        _ => false,
    }
}

/// A read that begins with no reply waiting never leaves one waiting, however
/// it ends: what it sends is exactly the replies owed for the wire bytes it has
/// consumed, in order. It delivers only where it has bytes to deliver, and
/// returns without any only where none were asked for or the peer has gone.
pub proof fn law_read_sends_the_replies_it_owes(
    points: Seq<ReadPoint>,
    events: Seq<ReadEvent>,
    capacity: usize,
)
    requires
        is_read(points, events, capacity),
        points[0].codec.replies() == Seq::<u8>::empty(),
    ensures
        points.last().codec.replies() == Seq::<u8>::empty(),
        sent(points) == run_replies(points[0].codec.state(), consumed(events)),
        points.last().codec.state() == run_state(points[0].codec.state(), consumed(events)),
        points.last().codec.data() == points[0].codec.data() + run_data(
            points[0].codec.state(),
            consumed(events),
        ),
        points.last().step is Deliver ==> points.last().codec.data().len() > 0,
        points.last().step is ReturnEmpty ==> capacity == 0 || (events.len() > 0 && ends_stream(
            events.last(),
        )),
    decreases events.len(),
{
    let start = points[0].codec;
    if events.len() == 0 {
        assert(points.drop_last() == Seq::<ReadPoint>::empty());
        reveal_with_fuel(sent, 2);
        assert(start.data() + Seq::<u8>::empty() == start.data());
    } else {
        let earlier = points.drop_last();
        let before = earlier.last();
        let after = points.last();
        let event = events.last();
        assert forall|i: int| 0 <= i < events.len() - 1 implies read_advances(
            earlier[i],
            #[trigger] events.drop_last()[i],
            earlier[i + 1],
        ) by {
            assert(read_advances(points[i], events[i], points[i + 1]));
        }
        law_read_sends_the_replies_it_owes(earlier, events.drop_last(), capacity);
        assert(read_advances(before, events[events.len() - 1], after));
        let wire = consumed(events.drop_last());
        match event {
            ReadEvent::Got(Received::Bytes(bytes)) => {
                law_decoding_is_incremental(start.state(), wire, bytes@);
                assert(before.codec.replies() + run_replies(before.codec.state(), bytes@)
                    == run_replies(before.codec.state(), bytes@));
                assert(start.data() + (run_data(start.state(), wire) + run_data(
                    before.codec.state(),
                    bytes@,
                )) == start.data() + run_data(start.state(), wire) + run_data(
                    before.codec.state(),
                    bytes@,
                ));
            },
            _ => {
                assert(consumed(events) == wire);
            },
        }
    }
}

/// A chunk that holds negotiations and no user data makes a read go on: once
/// the replies are sent, it waits for more.
pub proof fn law_negotiations_alone_end_no_read(
    before: ReadPoint,
    bytes: Vec<u8>,
    after: ReadPoint,
    next: ReadPoint,
)
    requires
        read_advances(before, ReadEvent::Got(Received::Bytes(bytes)), after),
        bytes@.len() > 0,
        before.codec.data() == Seq::<u8>::empty(),
        run_data(before.codec.state(), bytes@) == Seq::<u8>::empty(),
        after.step is SendReplies ==> read_advances(after, ReadEvent::Sent, next),
    ensures
        after.step is SendReplies || after.step is AwaitReadable,
        after.step is SendReplies ==> next.step is AwaitReadable,
{
}

} // verus!
