use bluez_adapter::peripheral::bluez::adapter::Adapter;
use bluez_adapter::peripheral::bluez::call::{Argument, MethodCall};
use bluez_adapter::peripheral::bluez::error::{Error, ProtocolError, Rejection};
use bluez_adapter::peripheral::bluez::value::{Kind, Value};

/// What a broker sends back: nothing for a write, a value for a read.
#[derive(Debug, PartialEq)]
enum Answer {
    Done,
    Value(Value),
}

/// A broker that keeps, for each object and property, the value last written
/// and answers reads with it.
struct EchoBroker {
    written: Vec<(String, String, String, Value)>,
}

impl EchoBroker {
    fn new() -> Self {
        EchoBroker { written: Vec::new() }
    }

    fn unknown(what: &str) -> Rejection {
        Rejection {
            name: Some("org.freedesktop.DBus.Error.InvalidArgs".to_string()),
            message: Some(what.to_string()),
        }
    }

    fn handle(&mut self, call: &MethodCall) -> Result<Answer, Rejection> {
        if call.interface != "org.freedesktop.DBus.Properties" {
            return Err(Self::unknown("no such interface"));
        }
        match (call.member.as_str(), call.arguments.as_slice()) {
            ("Set", [Argument::Str(interface), Argument::Str(property), Argument::Variant(value)]) => {
                self.written.push((call.path.clone(), interface.clone(), property.clone(), value.clone()));
                Ok(Answer::Done)
            }
            ("Get", [Argument::Str(interface), Argument::Str(property)]) => self
                .written
                .iter()
                .rev()
                .find(|(path, i, p, _)| path == &call.path && i == interface && p == property)
                .map(|(_, _, _, value)| Answer::Value(value.clone()))
                .ok_or_else(|| Self::unknown("no such property")),
            _ => Err(Self::unknown("no such method")),
        }
    }

    fn write(&mut self, call: &MethodCall) -> Result<(), Rejection> {
        match self.handle(call)? {
            Answer::Done => Ok(()),
            Answer::Value(_) => panic!("a write was answered with a value"),
        }
    }

    fn read(&mut self, call: &MethodCall) -> Result<Value, Rejection> {
        match self.handle(call)? {
            Answer::Value(value) => Ok(value),
            Answer::Done => panic!("a read was answered with nothing"),
        }
    }
}

fn hci0() -> Adapter {
    Adapter { object_path: "/org/bluez/hci0".to_string() }
}

fn mismatch(expected: Kind, found: Kind) -> Error {
    Error::Protocol(ProtocolError::TypeMismatch { expected, found })
}

#[test]
fn power_switched_on_reads_back_as_on() {
    let mut broker = EchoBroker::new();
    let adapter = hci0();
    assert_eq!(Adapter::confirm_set(broker.write(&adapter.powered(true))), Ok(()));
    assert_eq!(Adapter::read_powered(broker.read(&adapter.is_powered())), Ok(true));
}

#[test]
fn power_switched_off_reads_back_as_off() {
    let mut broker = EchoBroker::new();
    let adapter = hci0();
    assert_eq!(Adapter::confirm_set(broker.write(&adapter.powered(true))), Ok(()));
    assert_eq!(Adapter::confirm_set(broker.write(&adapter.powered(false))), Ok(()));
    assert_eq!(Adapter::read_powered(broker.read(&adapter.is_powered())), Ok(false));
}

#[test]
fn alias_reads_back_as_set() {
    let mut broker = EchoBroker::new();
    let adapter = hci0();
    assert_eq!(Adapter::confirm_set(broker.write(&adapter.set_alias("x"))), Ok(()));
    assert_eq!(Adapter::read_alias(broker.read(&adapter.get_alias())), Ok("x".to_string()));
}

#[test]
fn power_and_alias_are_kept_apart() {
    let mut broker = EchoBroker::new();
    let adapter = hci0();
    assert_eq!(Adapter::confirm_set(broker.write(&adapter.set_alias("kitchen"))), Ok(()));
    assert_eq!(Adapter::confirm_set(broker.write(&adapter.powered(true))), Ok(()));
    assert_eq!(Adapter::read_alias(broker.read(&adapter.get_alias())), Ok("kitchen".to_string()));
    assert_eq!(Adapter::read_powered(broker.read(&adapter.is_powered())), Ok(true));
}

#[test]
fn adapters_are_kept_apart() {
    let mut broker = EchoBroker::new();
    let (hci0, hci1) = (hci0(), Adapter { object_path: "/org/bluez/hci1".to_string() });
    assert_eq!(Adapter::confirm_set(broker.write(&hci0.powered(true))), Ok(()));
    assert_eq!(Adapter::confirm_set(broker.write(&hci1.powered(false))), Ok(()));
    assert_eq!(Adapter::read_powered(broker.read(&hci0.is_powered())), Ok(true));
    assert_eq!(Adapter::read_powered(broker.read(&hci1.is_powered())), Ok(false));
}

#[test]
fn read_of_a_property_never_written_is_rejected() {
    let mut broker = EchoBroker::new();
    let reply = broker.read(&hci0().is_powered());
    assert_eq!(
        Adapter::read_powered(reply),
        Err(Error::Protocol(ProtocolError::Rejected(EchoBroker::unknown("no such property"))))
    );
}

#[test]
fn text_where_a_truth_value_is_expected_is_a_mismatch() {
    let reply = Ok(Value::Str("true".to_string()));
    assert_eq!(Adapter::read_powered(reply), Err(mismatch(Kind::Bool, Kind::Str)));
}

#[test]
fn number_where_a_truth_value_is_expected_is_a_mismatch() {
    assert_eq!(Adapter::read_powered(Ok(Value::Byte(1))), Err(mismatch(Kind::Bool, Kind::Byte)));
    assert_eq!(Adapter::read_powered(Ok(Value::UInt32(1))), Err(mismatch(Kind::Bool, Kind::UInt32)));
    assert_eq!(Adapter::read_powered(Ok(Value::Int32(0))), Err(mismatch(Kind::Bool, Kind::Int32)));
    assert_eq!(Adapter::read_powered(Ok(Value::Other)), Err(mismatch(Kind::Bool, Kind::Other)));
}

#[test]
fn truth_value_where_a_text_is_expected_is_a_mismatch() {
    assert_eq!(Adapter::read_alias(Ok(Value::Bool(true))), Err(mismatch(Kind::Str, Kind::Bool)));
    assert_eq!(Adapter::read_alias(Ok(Value::Int64(-7))), Err(mismatch(Kind::Str, Kind::Int64)));
    assert_eq!(Adapter::read_alias(Ok(Value::UInt16(7))), Err(mismatch(Kind::Str, Kind::UInt16)));
    assert_eq!(Adapter::read_alias(Ok(Value::Other)), Err(mismatch(Kind::Str, Kind::Other)));
}

#[test]
fn alias_written_where_power_is_read_is_a_mismatch() {
    let mut broker = EchoBroker::new();
    let adapter = hci0();
    let mut crossed = adapter.set_alias("on");
    crossed.arguments[1] = Argument::Str("Powered".to_string());
    assert_eq!(Adapter::confirm_set(broker.write(&crossed)), Ok(()));
    assert_eq!(
        Adapter::read_powered(broker.read(&adapter.is_powered())),
        Err(mismatch(Kind::Bool, Kind::Str))
    );
}

#[test]
fn rejected_write_is_a_protocol_error() {
    let rejection = Rejection {
        name: Some("org.bluez.Error.NotReady".to_string()),
        message: Some("Resource Not Ready".to_string()),
    };
    assert_eq!(
        Adapter::confirm_set(Err(rejection.clone())),
        Err(Error::Protocol(ProtocolError::Rejected(rejection)))
    );
}

#[test]
fn rejected_read_is_a_protocol_error() {
    let rejection = Rejection { name: None, message: None };
    assert_eq!(
        Adapter::read_powered(Err(rejection.clone())),
        Err(Error::Protocol(ProtocolError::Rejected(rejection.clone())))
    );
    assert_eq!(Adapter::read_alias(Err(rejection.clone())), Err(Error::Protocol(ProtocolError::Rejected(rejection))));
}

#[test]
fn answers_of_the_right_shape_are_read_as_they_are() {
    assert_eq!(Adapter::read_powered(Ok(Value::Bool(false))), Ok(false));
    assert_eq!(Adapter::read_powered(Ok(Value::Bool(true))), Ok(true));
    assert_eq!(Adapter::read_alias(Ok(Value::Str(String::new()))), Ok(String::new()));
    assert_eq!(Adapter::read_alias(Ok(Value::Str("Küche ☕".to_string()))), Ok("Küche ☕".to_string()));
}

#[test]
fn every_value_knows_its_shape() {
    assert_eq!(Value::Bool(true).kind(), Kind::Bool);
    assert_eq!(Value::Byte(1).kind(), Kind::Byte);
    assert_eq!(Value::Int16(-1).kind(), Kind::Int16);
    assert_eq!(Value::UInt16(1).kind(), Kind::UInt16);
    assert_eq!(Value::Int32(-1).kind(), Kind::Int32);
    assert_eq!(Value::UInt32(1).kind(), Kind::UInt32);
    assert_eq!(Value::Int64(-1).kind(), Kind::Int64);
    assert_eq!(Value::UInt64(1).kind(), Kind::UInt64);
    assert_eq!(Value::Str("1".to_string()).kind(), Kind::Str);
    assert_eq!(Value::Other.kind(), Kind::Other);
}

#[test]
fn typed_reads_take_only_their_own_shape() {
    assert_eq!(Value::Bool(true).into_bool(), Ok(true));
    assert_eq!(
        Value::Str("true".to_string()).into_bool(),
        Err(ProtocolError::TypeMismatch { expected: Kind::Bool, found: Kind::Str })
    );
    assert_eq!(Value::Str("a".to_string()).into_string(), Ok("a".to_string()));
    assert_eq!(
        Value::Bool(false).into_string(),
        Err(ProtocolError::TypeMismatch { expected: Kind::Str, found: Kind::Bool })
    );
}
