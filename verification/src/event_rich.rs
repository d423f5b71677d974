//! An event fixture: a contract with no state whose calls publish events of every
//! value shape a decoder has to handle (integers of each width, booleans, symbols,
//! strings, bytes, vectors, maps, addresses).
use vstd::prelude::*;
use crate::common::Addr;

verus! {

/// One published event: its topic and its value.
pub enum RichEvent {
    U32Event(u32),
    I32Event(i32),
    U64Event(u64),
    I64Event(i64),
    BoolTrue(bool),
    BoolFalse(bool),
    U128Event(u128),
    I128Event(i128),
    /// A symbol value.
    SymbolEvent(String),
    /// A string value.
    StringEvent(String),
    BytesEvent(Vec<u8>),
    VecEvent(Vec<u32>),
    /// A map from symbols to `i128`, entries in key order.
    MapEvent(Vec<(String, i128)>),
    /// Published with the address as a second topic as well as the value.
    AddressEvent(Addr),
}

impl RichEvent {
    /// The symbol under which the event is published.
    pub open spec fn topic_spec(&self) -> Seq<char> {
        match *self {
            RichEvent::U32Event(_) => "u32_event"@,
            RichEvent::I32Event(_) => "i32_event"@,
            RichEvent::U64Event(_) => "u64_event"@,
            RichEvent::I64Event(_) => "i64_event"@,
            RichEvent::BoolTrue(_) => "bool_true"@,
            RichEvent::BoolFalse(_) => "bool_false"@,
            RichEvent::U128Event(_) => "u128_event"@,
            RichEvent::I128Event(_) => "i128_event"@,
            RichEvent::SymbolEvent(_) => "symbol_event"@,
            RichEvent::StringEvent(_) => "string_event"@,
            RichEvent::BytesEvent(_) => "bytes_event"@,
            RichEvent::VecEvent(_) => "vec_event"@,
            RichEvent::MapEvent(_) => "map_event"@,
            RichEvent::AddressEvent(_) => "address_event"@,
        }
    }

    /// The symbol under which the event is published.
    pub fn topic(&self) -> (t: &'static str)
        ensures
            t@ == self.topic_spec(),
    {
        match self {
            RichEvent::U32Event(_) => "u32_event",
            RichEvent::I32Event(_) => "i32_event",
            RichEvent::U64Event(_) => "u64_event",
            RichEvent::I64Event(_) => "i64_event",
            RichEvent::BoolTrue(_) => "bool_true",
            RichEvent::BoolFalse(_) => "bool_false",
            RichEvent::U128Event(_) => "u128_event",
            RichEvent::I128Event(_) => "i128_event",
            RichEvent::SymbolEvent(_) => "symbol_event",
            RichEvent::StringEvent(_) => "string_event",
            RichEvent::BytesEvent(_) => "bytes_event",
            RichEvent::VecEvent(_) => "vec_event",
            RichEvent::MapEvent(_) => "map_event",
            RichEvent::AddressEvent(_) => "address_event",
        }
    }
}

/// The event fixture contract. It holds no state.
pub struct EventRichContract;

impl EventRichContract {
    /// The events of primitive values: 42u32, -42i32, 1_000_000u64, -1_000_000i64, true,
    /// false, in that order.
    pub fn emit_primitive_types() -> (events: Vec<RichEvent>)
        ensures
            events@.len() == 6,
            events@[0] == RichEvent::U32Event(42),
            events@[1] == RichEvent::I32Event(-42i32),
            events@[2] == RichEvent::U64Event(1_000_000),
            events@[3] == RichEvent::I64Event(-1_000_000i64),
            events@[4] == RichEvent::BoolTrue(true),
            events@[5] == RichEvent::BoolFalse(false),
    {
        let mut events: Vec<RichEvent> = Vec::new();
        events.push(RichEvent::U32Event(42));
        events.push(RichEvent::I32Event(-42));
        events.push(RichEvent::U64Event(1_000_000));
        events.push(RichEvent::I64Event(-1_000_000));
        events.push(RichEvent::BoolTrue(true));
        events.push(RichEvent::BoolFalse(false));
        events
    }

    /// The events of 128-bit values: `u128::MAX`, then `i128::MIN`.
    pub fn emit_big_numbers() -> (events: Vec<RichEvent>)
        ensures
            events@.len() == 2,
            events@[0] == RichEvent::U128Event(u128::MAX),
            events@[1] == RichEvent::I128Event(i128::MIN),
    {
        let mut events: Vec<RichEvent> = Vec::new();
        events.push(RichEvent::U128Event(u128::MAX));
        events.push(RichEvent::I128Event(i128::MIN));
        events
    }

    /// The events of text values: the symbol `hello`, the string `hello from soroban`, and
    /// the bytes `de ad be ef`.
    pub fn emit_strings() -> (events: Vec<RichEvent>)
        ensures
            events@.len() == 3,
            events@[0] matches RichEvent::SymbolEvent(s) && s@ == "hello"@,
            events@[1] matches RichEvent::StringEvent(s) && s@ == "hello from soroban"@,
            events@[2] matches RichEvent::BytesEvent(b) && b@ == seq![0xdeu8, 0xad, 0xbe, 0xef],
    {
        let mut events: Vec<RichEvent> = Vec::new();
        events.push(RichEvent::SymbolEvent("hello".to_owned()));
        events.push(RichEvent::StringEvent("hello from soroban".to_owned()));
        let mut bytes: Vec<u8> = Vec::new();
        bytes.push(0xde);
        bytes.push(0xad);
        bytes.push(0xbe);
        bytes.push(0xef);
        assert(bytes@ =~= seq![0xdeu8, 0xad, 0xbe, 0xef]);
        events.push(RichEvent::BytesEvent(bytes));
        events
    }

    /// The events of collections: the vector `[1, 2, 3]`, and the map
    /// `{amount: 1_000_000, fee: 100}`.
    pub fn emit_collections() -> (events: Vec<RichEvent>)
        ensures
            events@.len() == 2,
            events@[0] matches RichEvent::VecEvent(v) && v@ == seq![1u32, 2, 3],
            events@[1] matches RichEvent::MapEvent(m) && m@.len() == 2 && m@[0].0@ == "amount"@
                && m@[0].1 == 1_000_000 && m@[1].0@ == "fee"@ && m@[1].1 == 100,
    {
        let mut events: Vec<RichEvent> = Vec::new();
        let mut v: Vec<u32> = Vec::new();
        v.push(1);
        v.push(2);
        v.push(3);
        assert(v@ =~= seq![1u32, 2, 3]);
        events.push(RichEvent::VecEvent(v));
        let mut m: Vec<(String, i128)> = Vec::new();
        m.push(("amount".to_owned(), 1_000_000));
        m.push(("fee".to_owned(), 100));
        events.push(RichEvent::MapEvent(m));
        events
    }

    /// The event carrying `addr`, both as its value and as a second topic.
    pub fn emit_address(addr: Addr) -> (events: Vec<RichEvent>)
        ensures
            events@ == seq![RichEvent::AddressEvent(addr)],
    {
        let mut events: Vec<RichEvent> = Vec::new();
        events.push(RichEvent::AddressEvent(addr));
        assert(events@ =~= seq![RichEvent::AddressEvent(addr)]);
        events
    }
}

} // verus!
