//! The signal database: message and signal definitions and their lookup by
//! masked identifier.

use crate::dbc_text::{
    dbc_messages, dbc_parse, message_count, message_name, message_raw_id, parse_description,
    signal_byte_order, signal_count, signal_labels, signal_multiplexing, signal_scaling,
    signal_span, signal_value_type, utf8_text, ParsedMessage,
};
use crate::frame::{mask_id, masked, ID_FLAG};
use crate::laws::lemma_lookup_ignores_flag;
use crate::search::{first_index_of, lemma_first_index_is, lemma_first_index_none};
use vstd::prelude::*;
use vstd::utf8::{decode_utf8, valid_utf8};

verus! {

/// Order of the bytes that a signal spans.
#[derive(Clone, Copy, Debug, PartialEq, Eq, Structural)]
pub enum ByteOrder {
    LittleEndian,
    BigEndian,
}

/// Whether a signal's bits are a two's-complement or an unsigned number.
#[derive(Clone, Copy, Debug, PartialEq, Eq, Structural)]
pub enum ValueType {
    Signed,
    Unsigned,
}

/// The part a signal plays in a multiplexed message.
#[derive(Clone, Copy, Debug, PartialEq, Eq, Structural)]
pub enum Multiplexing {
    /// Present in every frame.
    Plain,
    /// The switch whose value selects the multiplexed signals.
    Switch,
    /// Present only while the switch holds this value.
    Selected(u64),
    /// Present only while the switch holds this value, and a switch itself.
    SelectedSwitch(u64),
}

/// Where a signal's bits lie in the payload and how to read them.
#[derive(Clone, Copy, Debug, PartialEq, Eq, Structural)]
pub struct SignalLayout {
    pub start_bit: u64,
    pub size: u64,
    pub byte_order: ByteOrder,
    pub value_type: ValueType,
    pub multiplexing: Multiplexing,
}

/// One signal of a message. Scale and offset are kept as the bit patterns
/// of their 64-bit IEEE-754 values; `scale` is the scale factor as text.
#[derive(Debug, PartialEq, Eq)]
pub struct SignalDefinition {
    pub name: String,
    pub layout: SignalLayout,
    pub scale_bits: u64,
    pub offset_bits: u64,
    pub scale: String,
    pub unit: String,
}

/// What a `SignalDefinition` stands for.
pub struct SignalModel {
    pub name: Seq<char>,
    pub layout: SignalLayout,
    pub scale_bits: u64,
    pub offset_bits: u64,
    pub scale: Seq<char>,
    pub unit: Seq<char>,
}

impl View for SignalDefinition {
    type V = SignalModel;

    open spec fn view(&self) -> SignalModel {
        SignalModel {
            name: self.name@,
            layout: self.layout,
            scale_bits: self.scale_bits,
            offset_bits: self.offset_bits,
            scale: self.scale@,
            unit: self.unit@,
        }
    }
}

impl DeepView for SignalDefinition {
    type V = SignalModel;

    open spec fn deep_view(&self) -> SignalModel {
        self@
    }
}

impl Clone for SignalDefinition {
    fn clone(&self) -> (r: Self)
        ensures
            r@ == self@,
    {
        SignalDefinition {
            name: self.name.clone(),
            layout: self.layout,
            scale_bits: self.scale_bits,
            offset_bits: self.offset_bits,
            scale: self.scale.clone(),
            unit: self.unit.clone(),
        }
    }
}

/// One message: its identifier with the top bit cleared, whether it is an
/// extended (29-bit) identifier, its name and its signals in order.
#[derive(Debug, PartialEq, Eq)]
pub struct MessageDefinition {
    pub id: u32,
    pub extended: bool,
    pub name: String,
    pub signals: Vec<SignalDefinition>,
}

/// What a `MessageDefinition` stands for.
pub struct MessageModel {
    pub id: u32,
    pub extended: bool,
    pub name: Seq<char>,
    pub signals: Seq<SignalModel>,
}

impl View for MessageDefinition {
    type V = MessageModel;

    open spec fn view(&self) -> MessageModel {
        MessageModel {
            id: self.id,
            extended: self.extended,
            name: self.name@,
            signals: self.signals.deep_view(),
        }
    }
}

impl DeepView for MessageDefinition {
    type V = MessageModel;

    open spec fn deep_view(&self) -> MessageModel {
        self@
    }
}

/// Copies a list of signal definitions.
pub fn clone_signals(signals: &Vec<SignalDefinition>) -> (r: Vec<SignalDefinition>)
    ensures
        r.deep_view() == signals.deep_view(),
{
    let mut out: Vec<SignalDefinition> = Vec::new();
    let mut i: usize = 0;
    while i < signals.len()
        invariant
            i <= signals.len(),
            out.len() == i,
            forall|k: int| 0 <= k < i ==> out@[k]@ == signals@[k]@,
        decreases signals.len() - i,
    {
        out.push(signals[i].clone());
        i = i + 1;
    }
    assert(out.deep_view() =~= signals.deep_view());
    out
}

impl Clone for MessageDefinition {
    fn clone(&self) -> (r: Self)
        ensures
            r@ == self@,
    {
        MessageDefinition {
            id: self.id,
            extended: self.extended,
            name: self.name.clone(),
            signals: clone_signals(&self.signals),
        }
    }
}

impl MessageDefinition {
    /// A definition from an identifier as it stands in a database, where the
    /// top bit marks an extended identifier.
    pub fn new(raw_id: u32, name: String, signals: Vec<SignalDefinition>) -> (r: Self)
        ensures
            r@ == (MessageModel {
                id: masked(raw_id),
                extended: raw_id & ID_FLAG != 0,
                name: name@,
                signals: signals.deep_view(),
            }),
    {
        MessageDefinition { id: mask_id(raw_id), extended: raw_id & ID_FLAG != 0, name, signals }
    }
}

/// Why a database could not be loaded.
#[derive(Clone, Copy, Debug, PartialEq, Eq, Structural)]
pub enum DecodeError {
    /// The buffer holds no well-formed set of message and signal definitions.
    MalformedDatabase,
}

/// The masked identifiers of a list of messages, in order.
pub open spec fn message_keys(messages: Seq<MessageModel>) -> Seq<u32> {
    messages.map_values(|m: MessageModel| masked(m.id))
}

/// What a `SignalDatabase` stands for: its messages in the order of the
/// description.
pub struct DatabaseModel {
    pub messages: Seq<MessageModel>,
}

impl DatabaseModel {
    /// No two messages share an identifier once the top bit is cleared.
    pub open spec fn wf(self) -> bool {
        message_keys(self.messages).no_duplicates()
    }

    /// The position of the message with an identifier, compared with the
    /// top bit cleared on both sides.
    pub open spec fn position(self, id: u32) -> Option<int> {
        first_index_of(message_keys(self.messages), masked(id))
    }

    /// The message with an identifier, compared with the top bit cleared
    /// on both sides.
    pub open spec fn lookup(self, id: u32) -> Option<MessageModel> {
        match self.position(id) {
            Some(i) => Some(self.messages[i]),
            None => None,
        }
    }
}

/// The message that a parsed entry defines: the identifier without its top
/// bit, and the top bit as the extended flag.
pub open spec fn message_of(parsed: ParsedMessage) -> MessageModel {
    MessageModel {
        id: masked(parsed.raw_id),
        extended: parsed.raw_id & ID_FLAG != 0,
        name: parsed.name,
        signals: parsed.signals,
    }
}

/// The database that a list of messages forms, if their masked identifiers
/// are distinct.
pub open spec fn assembled(messages: Seq<MessageModel>) -> Result<DatabaseModel, DecodeError> {
    let database = DatabaseModel { messages };
    if database.wf() {
        Ok(database)
    } else {
        Err(DecodeError::MalformedDatabase)
    }
}

/// What loading a byte buffer gives: the buffer has to be valid UTF-8, the
/// parser has to accept the text as a whole, and the messages it reads must
/// have distinct masked identifiers.
pub open spec fn loaded(bytes: Seq<u8>) -> Result<DatabaseModel, DecodeError> {
    if !valid_utf8(bytes) {
        Err(DecodeError::MalformedDatabase)
    } else {
        match dbc_parse(decode_utf8(bytes)) {
            Some(parsed) => assembled(parsed.map_values(|p: ParsedMessage| message_of(p))),
            None => Err(DecodeError::MalformedDatabase),
        }
    }
}

/// An immutable set of message definitions, looked up by masked identifier.
#[derive(Debug, PartialEq, Eq)]
pub struct SignalDatabase {
    messages: Vec<MessageDefinition>,
}

impl View for SignalDatabase {
    type V = DatabaseModel;

    closed spec fn view(&self) -> DatabaseModel {
        DatabaseModel { messages: self.messages.deep_view() }
    }
}

impl SignalDatabase {
    #[verifier::type_invariant]
    spec fn well_formed(self) -> bool {
        self@.wf()
    }

    /// Forms a database from message definitions. Fails if two of them have
    /// the same identifier once the top bit is cleared.
    pub fn from_messages(messages: Vec<MessageDefinition>) -> (r: Result<
        SignalDatabase,
        DecodeError,
    >)
        ensures
            match r {
                Ok(db) => assembled(messages.deep_view()) == Ok::<DatabaseModel, DecodeError>(db@),
                Err(e) => assembled(messages.deep_view()) == Err::<DatabaseModel, DecodeError>(e),
            },
    {
        let ghost keys = message_keys(messages.deep_view());
        let mut i: usize = 0;
        while i < messages.len()
            invariant
                i <= messages.len(),
                keys == message_keys(messages.deep_view()),
                forall|a: int, b: int| 0 <= a < b < i ==> keys[a] != keys[b],
            decreases messages.len() - i,
        {
            let id = mask_id(messages[i].id);
            assert(keys[i as int] == id);
            let mut j: usize = 0;
            while j < i
                invariant
                    j <= i < messages.len(),
                    keys == message_keys(messages.deep_view()),
                    keys[i as int] == id,
                    forall|a: int| 0 <= a < j ==> keys[a] != id,
                decreases i - j,
            {
                if mask_id(messages[j].id) == id {
                    assert(keys[j as int] == keys[i as int]);
                    return Err(DecodeError::MalformedDatabase);
                }
                j = j + 1;
            }
            i = i + 1;
        }
        assert(keys.no_duplicates());
        Ok(SignalDatabase { messages })
    }

    /// Loads a database from the bytes of a description. The load succeeds
    /// as a whole or not at all.
    pub fn load(bytes: &[u8]) -> (r: Result<SignalDatabase, DecodeError>)
        ensures
            match r {
                Ok(db) => loaded(bytes@) == Ok::<DatabaseModel, DecodeError>(db@),
                Err(e) => loaded(bytes@) == Err::<DatabaseModel, DecodeError>(e),
            },
    {
        let text = match utf8_text(bytes) {
            Some(text) => text,
            None => {
                return Err(DecodeError::MalformedDatabase);
            },
        };
        let dbc = match parse_description(text) {
            Some(dbc) => dbc,
            None => {
                return Err(DecodeError::MalformedDatabase);
            },
        };
        SignalDatabase::from_messages(read_messages(&dbc))
    }

    /// The message definitions, in the order of the description. Their
    /// masked identifiers are distinct.
    pub fn messages(&self) -> (r: &Vec<MessageDefinition>)
        ensures
            r.deep_view() == self@.messages,
            self@.wf(),
    {
        proof {
            use_type_invariant(self);
        }
        &self.messages
    }

    /// The position of the message that an identifier belongs to. The top
    /// bit of the identifier plays no part.
    pub fn position(&self, id: u32) -> (r: Option<usize>)
        ensures
            match r {
                Some(i) => self@.position(id) == Some(i as int) && i < self@.messages.len(),
                None => self@.position(id) is None,
            },
    {
        let key = mask_id(id);
        let ghost keys = message_keys(self@.messages);
        let mut i: usize = 0;
        while i < self.messages.len()
            invariant
                i <= self.messages.len(),
                key == masked(id),
                keys == message_keys(self@.messages),
                forall|k: int| 0 <= k < i ==> keys[k] != key,
            decreases self.messages.len() - i,
        {
            if mask_id(self.messages[i].id) == key {
                proof {
                    assert(keys[i as int] == key);
                    lemma_first_index_is(keys, key, i as int);
                }
                return Some(i);
            }
            i = i + 1;
        }
        proof {
            lemma_first_index_none(keys, key);
        }
        None
    }

    /// The definition of the message that an identifier belongs to. The
    /// top bit of the identifier plays no part: `id` and `id | 0x8000_0000`
    /// find the same definition.
    pub fn lookup(&self, id: u32) -> (r: Option<&MessageDefinition>)
        ensures
            match r {
                Some(m) => self@.lookup(id) == Some(m@),
                None => self@.lookup(id) is None,
            },
            self@.lookup(id) == self@.lookup(id | ID_FLAG),
    {
        proof {
            lemma_lookup_ignores_flag(self@, id);
        }
        match self.position(id) {
            Some(i) => Some(&self.messages[i]),
            None => None,
        }
    }
}

/// Reads the signals of one message out of a parsed description.
fn read_signals(dbc: &can_dbc::DBC, index: usize) -> (r: Vec<SignalDefinition>)
    requires
        index < dbc_messages(*dbc).len(),
    ensures
        r.deep_view() == dbc_messages(*dbc)[index as int].signals,
{
    let ghost expected = dbc_messages(*dbc)[index as int].signals;
    let count = signal_count(dbc, index);
    let mut out: Vec<SignalDefinition> = Vec::new();
    let mut j: usize = 0;
    while j < count
        invariant
            j <= count,
            count == expected.len(),
            index < dbc_messages(*dbc).len(),
            expected == dbc_messages(*dbc)[index as int].signals,
            out.len() == j,
            forall|k: int| 0 <= k < j ==> out@[k]@ == expected[k],
        decreases count - j,
    {
        let (start_bit, size) = signal_span(dbc, index, j);
        let layout = SignalLayout {
            start_bit,
            size,
            byte_order: signal_byte_order(dbc, index, j),
            value_type: signal_value_type(dbc, index, j),
            multiplexing: signal_multiplexing(dbc, index, j),
        };
        let (name, unit) = signal_labels(dbc, index, j);
        let (scale_bits, offset_bits, scale) = signal_scaling(dbc, index, j);
        out.push(SignalDefinition { name, layout, scale_bits, offset_bits, scale, unit });
        j = j + 1;
    }
    assert(out.deep_view() =~= expected);
    out
}

/// Reads every message out of a parsed description, clearing the top bit
/// of each identifier.
fn read_messages(dbc: &can_dbc::DBC) -> (r: Vec<MessageDefinition>)
    ensures
        r.deep_view() == dbc_messages(*dbc).map_values(|p: ParsedMessage| message_of(p)),
{
    let ghost expected = dbc_messages(*dbc).map_values(|p: ParsedMessage| message_of(p));
    let count = message_count(dbc);
    let mut out: Vec<MessageDefinition> = Vec::new();
    let mut i: usize = 0;
    while i < count
        invariant
            i <= count,
            count == dbc_messages(*dbc).len(),
            expected == dbc_messages(*dbc).map_values(|p: ParsedMessage| message_of(p)),
            out.len() == i,
            forall|k: int| 0 <= k < i ==> out@[k]@ == expected[k],
        decreases count - i,
    {
        let raw_id = message_raw_id(dbc, i);
        let name = message_name(dbc, i);
        let signals = read_signals(dbc, i);
        out.push(MessageDefinition::new(raw_id, name, signals));
        i = i + 1;
    }
    assert(out.deep_view() =~= expected);
    out
}

} // verus!
