use can_viewer::database::{
    ByteOrder, DecodeError, MessageDefinition, Multiplexing, SignalDatabase, SignalDefinition,
    SignalLayout, ValueType,
};

const DESCRIPTION: &str = "VERSION \"1.0\"\n\nNS_ :\n\nBS_:\n\nBU_: ECU\n\nBO_ 256 Engine: 8 ECU\n SG_ Speed : 0|8@1+ (0.1,0) [0|25.5] \"km/h\" Vector__XXX\n SG_ Temp : 8|8@1- (1,-40) [-40|87] \"C\" Vector__XXX\n\nBO_ 2147484160 Gearbox: 8 ECU\n SG_ Gear : 7|4@0+ (2,0.5) [0|15] \"\" Vector__XXX\n\nBO_ 768 Mux: 8 ECU\n SG_ Mode M : 0|8@1+ (1,0) [0|255] \"\" Vector__XXX\n SG_ First m0 : 8|8@1+ (1,0) [0|255] \"\" Vector__XXX\n SG_ Second m1 : 8|16@1+ (1,0) [0|65535] \"\" Vector__XXX\n\n";

fn plain(start_bit: u64, size: u64) -> SignalLayout {
    SignalLayout {
        start_bit,
        size,
        byte_order: ByteOrder::LittleEndian,
        value_type: ValueType::Unsigned,
        multiplexing: Multiplexing::Plain,
    }
}

fn signal(name: &str) -> SignalDefinition {
    SignalDefinition {
        name: name.to_string(),
        layout: plain(0, 8),
        scale_bits: 1.0f64.to_bits(),
        offset_bits: 0.0f64.to_bits(),
        scale: "1".to_string(),
        unit: String::new(),
    }
}

#[test]
fn load_reads_every_message() {
    let db = SignalDatabase::load(DESCRIPTION.as_bytes()).unwrap();
    let messages = db.messages();
    assert_eq!(messages.len(), 3);

    assert_eq!(messages[0].id, 0x100);
    assert!(!messages[0].extended);
    assert_eq!(messages[0].name, "Engine");
    assert_eq!(messages[0].signals.len(), 2);

    assert_eq!(messages[1].id, 0x200);
    assert!(messages[1].extended);
    assert_eq!(messages[1].name, "Gearbox");

    assert_eq!(messages[2].id, 0x300);
    assert_eq!(messages[2].signals.len(), 3);
}

#[test]
fn load_reads_every_field_of_a_signal() {
    let db = SignalDatabase::load(DESCRIPTION.as_bytes()).unwrap();
    let engine = &db.messages()[0];

    let speed = &engine.signals[0];
    assert_eq!(speed.name, "Speed");
    assert_eq!(speed.layout, plain(0, 8));
    assert_eq!(f64::from_bits(speed.scale_bits), 0.1);
    assert_eq!(f64::from_bits(speed.offset_bits), 0.0);
    assert_eq!(speed.scale, "0.1");
    assert_eq!(speed.unit, "km/h");

    let temp = &engine.signals[1];
    assert_eq!(temp.name, "Temp");
    assert_eq!(temp.layout.start_bit, 8);
    assert_eq!(temp.layout.size, 8);
    assert_eq!(temp.layout.value_type, ValueType::Signed);
    assert_eq!(f64::from_bits(temp.scale_bits), 1.0);
    assert_eq!(f64::from_bits(temp.offset_bits), -40.0);
    assert_eq!(temp.scale, "1");
    assert_eq!(temp.unit, "C");

    let gear = &db.messages()[1].signals[0];
    assert_eq!(gear.layout.start_bit, 7);
    assert_eq!(gear.layout.size, 4);
    assert_eq!(gear.layout.byte_order, ByteOrder::BigEndian);
    assert_eq!(gear.layout.value_type, ValueType::Unsigned);
    assert_eq!(f64::from_bits(gear.scale_bits), 2.0);
    assert_eq!(f64::from_bits(gear.offset_bits), 0.5);
    assert_eq!(gear.scale, "2");
    assert_eq!(gear.unit, "");
}

#[test]
fn load_reads_the_multiplexing() {
    let db = SignalDatabase::load(DESCRIPTION.as_bytes()).unwrap();
    let mux = &db.messages()[2];
    assert_eq!(mux.signals[0].layout.multiplexing, Multiplexing::Switch);
    assert_eq!(mux.signals[1].layout.multiplexing, Multiplexing::Selected(0));
    assert_eq!(mux.signals[2].layout.multiplexing, Multiplexing::Selected(1));
    assert_eq!(db.messages()[0].signals[0].layout.multiplexing, Multiplexing::Plain);
}

#[test]
fn lookup_ignores_the_top_bit() {
    let db = SignalDatabase::load(DESCRIPTION.as_bytes()).unwrap();
    for id in [0x100u32, 0x200, 0x300] {
        let plain = db.lookup(id).unwrap();
        let flagged = db.lookup(id | 0x8000_0000).unwrap();
        assert_eq!(plain, flagged);
        assert_eq!(plain.id, id);
    }
    assert_eq!(db.lookup(0x100).unwrap().name, "Engine");
    assert_eq!(db.lookup(0x8000_0200).unwrap().name, "Gearbox");
    assert!(db.lookup(0x101).is_none());
    assert!(db.lookup(0x8000_0101).is_none());
    assert_eq!(db.position(0x300), Some(2));
    assert_eq!(db.position(0x8000_0300), Some(2));
    assert_eq!(db.position(0x301), None);
}

#[test]
fn malformed_description_is_rejected() {
    assert_eq!(
        SignalDatabase::load(b"this is no database").unwrap_err(),
        DecodeError::MalformedDatabase
    );
    assert_eq!(SignalDatabase::load(b"").unwrap_err(), DecodeError::MalformedDatabase);
    let truncated = &DESCRIPTION.as_bytes()[..DESCRIPTION.len() - 30];
    assert_eq!(SignalDatabase::load(truncated).unwrap_err(), DecodeError::MalformedDatabase);
}

#[test]
fn invalid_utf8_is_rejected() {
    let mut bytes = DESCRIPTION.as_bytes().to_vec();
    bytes[10] = 0xFF;
    assert_eq!(SignalDatabase::load(&bytes).unwrap_err(), DecodeError::MalformedDatabase);
}

#[test]
fn identifiers_that_collide_after_masking_are_rejected() {
    let text = "VERSION \"1.0\"\n\nNS_ :\n\nBS_:\n\nBU_: ECU\n\nBO_ 256 A: 8 ECU\n SG_ X : 0|8@1+ (1,0) [0|255] \"\" Vector__XXX\n\nBO_ 2147483904 B: 8 ECU\n SG_ Y : 0|8@1+ (1,0) [0|255] \"\" Vector__XXX\n\n";
    assert_eq!(SignalDatabase::load(text.as_bytes()).unwrap_err(), DecodeError::MalformedDatabase);
}

#[test]
fn database_from_definitions() {
    let messages = vec![
        MessageDefinition::new(0x8000_0123, "Ext".to_string(), vec![signal("a"), signal("b")]),
        MessageDefinition::new(0x7ff, "Std".to_string(), vec![]),
    ];
    let db = SignalDatabase::from_messages(messages).unwrap();
    assert_eq!(db.messages().len(), 2);
    assert_eq!(db.messages()[0].id, 0x123);
    assert!(db.messages()[0].extended);
    assert!(!db.messages()[1].extended);
    assert_eq!(db.lookup(0x123).unwrap().name, "Ext");
    assert_eq!(db.lookup(0x8000_07ff).unwrap().name, "Std");
}

#[test]
fn definitions_with_the_same_masked_identifier_are_rejected() {
    let messages = vec![
        MessageDefinition::new(0x123, "One".to_string(), vec![]),
        MessageDefinition::new(0x456, "Two".to_string(), vec![]),
        MessageDefinition::new(0x8000_0123, "Three".to_string(), vec![]),
    ];
    assert_eq!(SignalDatabase::from_messages(messages).unwrap_err(), DecodeError::MalformedDatabase);
}

#[test]
fn an_empty_database_finds_nothing() {
    let db = SignalDatabase::from_messages(vec![]).unwrap();
    assert!(db.messages().is_empty());
    assert!(db.lookup(0).is_none());
}
