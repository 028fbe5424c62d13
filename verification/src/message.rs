//! The messages that travel from Solana to Axelar, and the gateway events that they come from.
use vstd::prelude::*;

verus! {

/// A message in the form in which Axelar takes it.
#[derive(Debug, PartialEq, Eq)]
pub struct Message {
    /// The cross-chain identifier of the message.
    pub id: String,
    pub source_chain: String,
    pub source_address: String,
    pub destination_chain: String,
    pub destination_address: String,
    pub payload: Vec<u8>,
}

/// What a [`Message`] holds.
#[verifier::ext_equal]
pub struct MessageView {
    pub id: Seq<char>,
    pub source_chain: Seq<char>,
    pub source_address: Seq<char>,
    pub destination_chain: Seq<char>,
    pub destination_address: Seq<char>,
    pub payload: Seq<u8>,
}

impl View for Message {
    type V = MessageView;

    open spec fn view(&self) -> MessageView {
        MessageView {
            id: self.id@,
            source_chain: self.source_chain@,
            source_address: self.source_address@,
            destination_chain: self.destination_chain@,
            destination_address: self.destination_address@,
            payload: self.payload@,
        }
    }
}

/// A message on its way to the verifier, with the signature of the transaction that emitted it.
#[derive(Debug, PartialEq, Eq)]
pub struct SolanaToAxelarMessage {
    pub message: Message,
    pub signature: [u8; 64],
}

/// What a [`SolanaToAxelarMessage`] holds.
#[verifier::ext_equal]
pub struct SolanaToAxelarMessageView {
    pub message: MessageView,
    pub signature: Seq<u8>,
}

impl View for SolanaToAxelarMessage {
    type V = SolanaToAxelarMessageView;

    open spec fn view(&self) -> SolanaToAxelarMessageView {
        SolanaToAxelarMessageView { message: self.message@, signature: self.signature@ }
    }
}

/// A call of a contract on another chain, as the gateway program logs it.
#[derive(Debug, PartialEq, Eq)]
pub struct CallContract {
    /// The address of the program or account that made the call.
    pub sender: [u8; 32],
    pub destination_chain: Vec<u8>,
    pub destination_address: Vec<u8>,
    pub payload: Vec<u8>,
}

/// What a [`CallContract`] holds.
#[verifier::ext_equal]
pub struct CallContractView {
    pub sender: Seq<u8>,
    pub destination_chain: Seq<u8>,
    pub destination_address: Seq<u8>,
    pub payload: Seq<u8>,
}

impl View for CallContract {
    type V = CallContractView;

    open spec fn view(&self) -> CallContractView {
        CallContractView {
            sender: self.sender@,
            destination_chain: self.destination_chain@,
            destination_address: self.destination_address@,
            payload: self.payload@,
        }
    }
}

/// An event that the gateway program has logged.
#[derive(Debug, PartialEq, Eq)]
pub enum GatewayEvent {
    CallContract(CallContract),
    OperatorshipTransferred,
    /// Any event besides these.
    Other,
}

/// What a [`GatewayEvent`] holds.
pub enum GatewayEventView {
    CallContract(CallContractView),
    OperatorshipTransferred,
    Other,
}

impl View for GatewayEvent {
    type V = GatewayEventView;

    open spec fn view(&self) -> GatewayEventView {
        match self {
            GatewayEvent::CallContract(call) => GatewayEventView::CallContract(call@),
            GatewayEvent::OperatorshipTransferred => GatewayEventView::OperatorshipTransferred,
            GatewayEvent::Other => GatewayEventView::Other,
        }
    }
}

/// A Solana transaction with, for each of its log lines in order, the gateway event that the line
/// encodes, if it encodes one.
#[derive(Debug, PartialEq, Eq)]
pub struct SolanaTransaction {
    pub signature: [u8; 64],
    pub logs: Vec<Option<GatewayEvent>>,
}

/// What a [`SolanaTransaction`] holds.
pub struct SolanaTransactionView {
    pub signature: Seq<u8>,
    pub logs: Seq<Option<GatewayEventView>>,
}

/// What a log line encodes.
pub open spec fn log_view(log: Option<GatewayEvent>) -> Option<GatewayEventView> {
    match log {
        Some(event) => Some(event@),
        None => None,
    }
}

impl View for SolanaTransaction {
    type V = SolanaTransactionView;

    open spec fn view(&self) -> SolanaTransactionView {
        SolanaTransactionView {
            signature: self.signature@,
            logs: self.logs@.map_values(|log: Option<GatewayEvent>| log_view(log)),
        }
    }
}

/// The identifier of the message that the log line at `index` of a transaction gives rise to: the
/// chain's name, the signature in base58 and the index in decimal, with colons between them.
pub open spec fn message_id(chain_name: Seq<char>, signature: Seq<u8>, index: nat) -> Seq<char> {
    chain_name + seq![':'] + crate::encoding::base58(signature) + seq![':']
        + crate::encoding::decimal(index)
}

/// The message that a contract call at `index` of a transaction's log gives rise to. Its
/// destination chain is named in UTF-8.
pub open spec fn call_message(
    chain_name: Seq<char>,
    signature: Seq<u8>,
    index: nat,
    call: CallContractView,
) -> SolanaToAxelarMessageView {
    SolanaToAxelarMessageView {
        message: MessageView {
            id: message_id(chain_name, signature, index),
            source_chain: chain_name,
            source_address: crate::encoding::hex_text(call.sender),
            destination_chain: vstd::utf8::decode_utf8(call.destination_chain),
            destination_address: crate::encoding::hex_text(call.destination_address),
            payload: call.payload,
        },
        signature,
    }
}

/// A text with a colon in it determines what stands before its first colon and what after.
proof fn lemma_split_at_colon(a: Seq<char>, b: Seq<char>, c: Seq<char>, d: Seq<char>)
    requires
        !a.contains(':'),
        !c.contains(':'),
        a + seq![':'] + b == c + seq![':'] + d,
    ensures
        a == c,
        b == d,
{
    let s = a + seq![':'] + b;
    let t = c + seq![':'] + d;
    if a.len() < c.len() {
        assert(s[a.len() as int] == ':');
        assert(t[a.len() as int] == c[a.len() as int]);
    }
    if c.len() < a.len() {
        assert(t[c.len() as int] == ':');
        assert(s[c.len() as int] == a[c.len() as int]);
    }
    assert(a.len() == c.len());
    assert(a =~= s.subrange(0, a.len() as int));
    assert(c =~= t.subrange(0, c.len() as int));
    assert(b =~= s.subrange((a.len() + 1) as int, s.len() as int));
    assert(d =~= t.subrange((c.len() + 1) as int, t.len() as int));
}

/// On one chain no two log lines share a message identifier: equal identifiers mean the same
/// transaction signature and the same log index.
pub proof fn message_id_is_unique(
    chain_name: Seq<char>,
    signature1: Seq<u8>,
    index1: nat,
    signature2: Seq<u8>,
    index2: nat,
)
    requires
        signature1.len() == 64,
        signature2.len() == 64,
        message_id(chain_name, signature1, index1) == message_id(chain_name, signature2, index2),
    ensures
        signature1 == signature2,
        index1 == index2,
{
    let b1 = crate::encoding::base58(signature1);
    let b2 = crate::encoding::base58(signature2);
    let d1 = crate::encoding::decimal(index1);
    let d2 = crate::encoding::decimal(index2);
    let prefix = chain_name + seq![':'];
    let id1 = message_id(chain_name, signature1, index1);
    let id2 = message_id(chain_name, signature2, index2);
    assert(id1 =~= prefix + (b1 + seq![':'] + d1));
    assert(id2 =~= prefix + (b2 + seq![':'] + d2));
    assert(b1 + seq![':'] + d1 =~= id1.subrange(prefix.len() as int, id1.len() as int));
    assert(b2 + seq![':'] + d2 =~= id2.subrange(prefix.len() as int, id2.len() as int));
    crate::encoding_laws::base58_has_no_colon(signature1);
    crate::encoding_laws::base58_has_no_colon(signature2);
    lemma_split_at_colon(b1, d1, b2, d2);
    crate::encoding_laws::base58_injective(signature1, signature2);
    crate::encoding_laws::decimal_injective(index1, index2);
}

/// The addresses in a message determine the sender and the destination address of the call: they
/// decode to the bytes that they were written from.
pub proof fn message_addresses_decode(
    chain_name: Seq<char>,
    signature: Seq<u8>,
    index: nat,
    call: CallContractView,
)
    ensures
        crate::encoding::hex_decoded(
            call_message(chain_name, signature, index, call).message.source_address,
        ) == Ok::<Seq<u8>, crate::encoding::HexError>(call.sender),
        crate::encoding::hex_decoded(
            call_message(chain_name, signature, index, call).message.destination_address,
        ) == Ok::<Seq<u8>, crate::encoding::HexError>(call.destination_address),
{
    crate::encoding_laws::hex_round_trip(call.sender);
    crate::encoding_laws::hex_round_trip(call.destination_address);
}

/// The destination chain of a message, written in UTF-8, is the name that the call gave.
pub proof fn message_destination_chain_encodes(
    chain_name: Seq<char>,
    signature: Seq<u8>,
    index: nat,
    call: CallContractView,
)
    requires
        vstd::utf8::valid_utf8(call.destination_chain),
    ensures
        vstd::utf8::encode_utf8(
            call_message(chain_name, signature, index, call).message.destination_chain,
        ) == call.destination_chain,
{
    vstd::utf8::decode_utf8_encode_utf8(call.destination_chain);
}

/// A message carries the payload of its call, byte for byte and of the same length.
pub proof fn message_payload_is_kept(
    chain_name: Seq<char>,
    signature: Seq<u8>,
    index: nat,
    call: CallContractView,
)
    ensures
        ({
            let payload = call_message(chain_name, signature, index, call).message.payload;
            &&& payload.len() == call.payload.len()
            &&& forall|i: int| 0 <= i < payload.len() ==> payload[i] == call.payload[i]
        }),
{
}

/// A message comes from the chain that was named and from the transaction with the given signature.
pub proof fn message_origin_is_kept(
    chain_name: Seq<char>,
    signature: Seq<u8>,
    index: nat,
    call: CallContractView,
)
    ensures
        call_message(chain_name, signature, index, call).message.source_chain == chain_name,
        call_message(chain_name, signature, index, call).signature == signature,
{
}

/// The identifier of a message names its chain, its transaction and its log line: it begins with
/// the chain's name and a colon. What follows has one colon. Before it stands the signature as
/// Solana writes it, and behind it a number that is read as the index of the log line.
pub proof fn message_id_names_the_log_line(
    chain_name: Seq<char>,
    signature: Seq<u8>,
    index: nat,
    call: CallContractView,
    colon: int,
)
    requires
        colon == chain_name.len() + 1 + crate::encoding::base58(signature).len(),
    ensures
        ({
            let id = call_message(chain_name, signature, index, call).message.id;
            &&& chain_name.len() + 1 <= colon < id.len()
            &&& id.subrange(0, chain_name.len() as int) == chain_name
            &&& id[chain_name.len() as int] == ':'
            &&& id[colon] == ':'
            &&& forall|i: int|
                chain_name.len() < i < id.len() ==> (#[trigger] id[i] == ':' <==> i == colon)
            &&& id.subrange(chain_name.len() as int + 1, colon) == crate::encoding::base58(signature)
            &&& crate::encoding::decimal_value(id.subrange(colon + 1, id.len() as int)) == index
        }),
{
    let id = message_id(chain_name, signature, index);
    let text = crate::encoding::base58(signature);
    let number = crate::encoding::decimal(index);
    crate::encoding_laws::base58_has_no_colon(signature);
    crate::encoding_laws::decimal_is_read_back(index);
    assert(id.subrange(0, chain_name.len() as int) =~= chain_name);
    assert(id.subrange(chain_name.len() as int + 1, colon) =~= text);
    assert(id.subrange(colon + 1, id.len() as int) =~= number);
    assert forall|i: int| chain_name.len() < i < id.len() implies (#[trigger] id[i] == ':' <==> i
        == colon) by {
        if i < colon {
            assert(id[i] == text[i - chain_name.len() - 1]);
        } else if i > colon {
            assert(id[i] == number[i - colon - 1]);
        }
    }
}

/// Nothing of a call is lost: on one chain, equal messages come from the same log line of the same
/// transaction and from calls that agree in sender, destination and payload.
pub proof fn messages_determine_the_calls(
    chain_name: Seq<char>,
    signature1: Seq<u8>,
    index1: nat,
    call1: CallContractView,
    signature2: Seq<u8>,
    index2: nat,
    call2: CallContractView,
)
    requires
        signature1.len() == 64,
        signature2.len() == 64,
        vstd::utf8::valid_utf8(call1.destination_chain),
        vstd::utf8::valid_utf8(call2.destination_chain),
        call_message(chain_name, signature1, index1, call1) == call_message(
            chain_name,
            signature2,
            index2,
            call2,
        ),
    ensures
        signature1 == signature2,
        index1 == index2,
        call1.sender == call2.sender,
        call1.destination_chain == call2.destination_chain,
        call1.destination_address == call2.destination_address,
        call1.payload == call2.payload,
{
    message_id_is_unique(chain_name, signature1, index1, signature2, index2);
    message_addresses_decode(chain_name, signature1, index1, call1);
    message_addresses_decode(chain_name, signature2, index2, call2);
    message_destination_chain_encodes(chain_name, signature1, index1, call1);
    message_destination_chain_encodes(chain_name, signature2, index2, call2);
}

} // verus!
