//! The adapter: which managed object it is, what to ask the broker of it,
//! and how to read the broker's answers.
//!
//! Nothing here talks to the broker. Each operation is a call to hand over
//! and a function that reads what came back.

use crate::peripheral::bluez::call::Argument;
use crate::peripheral::bluez::call::ArgumentView;
use crate::peripheral::bluez::call::MethodCall;
use crate::peripheral::bluez::call::MethodCallView;
use crate::peripheral::bluez::constants::ADAPTER_IFACE;
use crate::peripheral::bluez::constants::DBUS_OBJECTMANAGER_IFACE;
use crate::peripheral::bluez::constants::DBUS_PROPERTIES_IFACE;
use crate::peripheral::bluez::constants::LE_ADVERTISING_MANAGER_IFACE;
use crate::peripheral::bluez::error::result_view;
use crate::peripheral::bluez::error::Error;
use crate::peripheral::bluez::error::ErrorView;
use crate::peripheral::bluez::error::ProtocolError;
use crate::peripheral::bluez::error::ProtocolErrorView;
use crate::peripheral::bluez::error::Rejection;
use crate::peripheral::bluez::error::RejectionView;
use crate::peripheral::bluez::object::is_substring;
use crate::peripheral::bluez::object::str_contains;
use crate::peripheral::bluez::object::ManagedObject;
use crate::peripheral::bluez::object::ManagedObjectView;
use crate::peripheral::bluez::value::Kind;
use crate::peripheral::bluez::value::Value;
use crate::peripheral::bluez::value::ValueView;
use vstd::prelude::*;

verus! {

/// The object can broadcast advertisements.
pub open spec fn advertises(object: ManagedObjectView) -> bool {
    object.has_interface(LE_ADVERTISING_MANAGER_IFACE@)
}

/// The object can serve as the adapter: it can broadcast advertisements
/// and, where a name is asked for, its path contains that name.
pub open spec fn qualifies(object: ManagedObjectView, name: Option<Seq<char>>) -> bool {
    advertises(object) && match name {
        Some(wanted) => is_substring(wanted, object.path),
        None => true,
    }
}

/// `index` is the place of the first object that qualifies.
pub open spec fn is_first_qualifying(
    objects: Seq<ManagedObjectView>,
    name: Option<Seq<char>>,
    index: int,
) -> bool {
    &&& 0 <= index < objects.len()
    &&& qualifies(objects[index], name)
    &&& forall|earlier: int| 0 <= earlier < index ==> !qualifies(#[trigger] objects[earlier], name)
}

/// The path of the first object that qualifies, if any does.
pub open spec fn discovered(objects: Seq<ManagedObjectView>, name: Option<Seq<char>>) -> Option<
    Seq<char>,
> {
    if exists|index: int| is_first_qualifying(objects, name, index) {
        Some(objects[choose|index: int| is_first_qualifying(objects, name, index)].path)
    } else {
        None
    }
}

/// The first object that qualifies is the one discovered.
pub proof fn lemma_first_qualifying_is_discovered(
    objects: Seq<ManagedObjectView>,
    name: Option<Seq<char>>,
    index: int,
)
    requires
        is_first_qualifying(objects, name, index),
    ensures
        discovered(objects, name) == Some(objects[index].path),
{
    let chosen = choose|i: int| is_first_qualifying(objects, name, i);
    assert(is_first_qualifying(objects, name, chosen));
    assert(chosen == index);
}

/// The call that asks the broker's root object for all that it manages.
pub open spec fn managed_objects_call() -> MethodCallView {
    MethodCallView {
        path: "/"@,
        interface: DBUS_OBJECTMANAGER_IFACE@,
        member: "GetManagedObjects"@,
        arguments: Seq::empty(),
    }
}

/// The call that reads the adapter property `property` of the object at
/// `path`. The call names the property interface; the adapter interface is
/// its first argument.
pub open spec fn get_call(path: Seq<char>, property: Seq<char>) -> MethodCallView {
    MethodCallView {
        path,
        interface: DBUS_PROPERTIES_IFACE@,
        member: "Get"@,
        arguments: seq![ArgumentView::Str(ADAPTER_IFACE@), ArgumentView::Str(property)],
    }
}

/// The call that writes `value` to the adapter property `property` of the
/// object at `path`. The call names the property interface; the adapter
/// interface is its first argument, and the value travels as a variant.
pub open spec fn set_call(path: Seq<char>, property: Seq<char>, value: ValueView) -> MethodCallView {
    MethodCallView {
        path,
        interface: DBUS_PROPERTIES_IFACE@,
        member: "Set"@,
        arguments: seq![
            ArgumentView::Str(ADAPTER_IFACE@),
            ArgumentView::Str(property),
            ArgumentView::Variant(value),
        ],
    }
}

/// What the answer to a `Set` call amounts to.
pub open spec fn set_outcome(reply: Result<(), RejectionView>) -> Result<(), ErrorView> {
    match reply {
        Ok(_) => Ok(()),
        Err(rejection) => Err(ErrorView::Protocol(ProtocolErrorView::Rejected(rejection))),
    }
}

/// The truth value that the answer to a `Get` call carries.
pub open spec fn bool_outcome(reply: Result<ValueView, RejectionView>) -> Result<bool, ErrorView> {
    match reply {
        Ok(value) => match value.as_bool() {
            Ok(b) => Ok(b),
            Err(mismatch) => Err(ErrorView::Protocol(mismatch)),
        },
        Err(rejection) => Err(ErrorView::Protocol(ProtocolErrorView::Rejected(rejection))),
    }
}

/// The text that the answer to a `Get` call carries.
pub open spec fn string_outcome(reply: Result<ValueView, RejectionView>) -> Result<
    Seq<char>,
    ErrorView,
> {
    match reply {
        Ok(value) => match value.as_str() {
            Ok(s) => Ok(s),
            Err(mismatch) => Err(ErrorView::Protocol(mismatch)),
        },
        Err(rejection) => Err(ErrorView::Protocol(ProtocolErrorView::Rejected(rejection))),
    }
}

/// A Bluetooth adapter, known by the path of its object.
#[derive(Clone, Debug, PartialEq, Eq)]
pub struct Adapter {
    pub object_path: String,
}

impl View for Adapter {
    type V = Seq<char>;

    open spec fn view(&self) -> Seq<char> {
        self.object_path@
    }
}

impl DeepView for Adapter {
    type V = Seq<char>;

    open spec fn deep_view(&self) -> Seq<char> {
        self@
    }
}

impl Adapter {
    /// The call whose answer lists the objects to search for an adapter.
    pub fn get_managed_objects() -> (call: MethodCall)
        ensures
            call@ == managed_objects_call(),
    {
        let call = MethodCall {
            path: "/".to_string(),
            interface: DBUS_OBJECTMANAGER_IFACE.to_string(),
            member: "GetManagedObjects".to_string(),
            arguments: Vec::new(),
        };
        assert(call@.arguments =~= Seq::empty());
        call
    }

    /// Picks the adapter among the managed objects: the first that can
    /// broadcast advertisements and, where `name` is given, has `name` in its
    /// path. Fails with [`Error::NotFound`] exactly when there is none.
    pub fn find_adapter(objects: &Vec<ManagedObject>, name: Option<&str>) -> (r: Result<
        String,
        Error,
    >)
        ensures
            result_view(r) == match discovered(objects.deep_view(), name.deep_view()) {
                Some(path) => Ok(path),
                None => Err(ErrorView::NotFound),
            },
    {
        let ghost model = objects.deep_view();
        let ghost wanted = name.deep_view();
        let mut i: usize = 0;
        while i < objects.len()
            invariant
                i <= objects.len(),
                model == objects.deep_view(),
                wanted == name.deep_view(),
                forall|earlier: int| 0 <= earlier < i ==> !qualifies(#[trigger] model[earlier], wanted),
            decreases objects.len() - i,
        {
            let object = &objects[i];
            assert(model[i as int] == object@);
            if object.has_interface(LE_ADVERTISING_MANAGER_IFACE) {
                let named = match name {
                    Some(wanted_name) => str_contains(object.path.as_str(), wanted_name),
                    None => true,
                };
                if named {
                    proof {
                        lemma_first_qualifying_is_discovered(model, wanted, i as int);
                    }
                    return Ok(object.path.clone());
                }
            }
            i += 1;
        }
        assert(forall|index: int| !is_first_qualifying(model, wanted, index));
        Err(Error::NotFound)
    }

    /// Binds the adapter found among `objects`, as [`Adapter::find_adapter`]
    /// finds it.
    pub fn new(objects: &Vec<ManagedObject>, interface: Option<&str>) -> (r: Result<Adapter, Error>)
        ensures
            result_view(r) == match discovered(objects.deep_view(), interface.deep_view()) {
                Some(path) => Ok(path),
                None => Err(ErrorView::NotFound),
            },
    {
        match Adapter::find_adapter(objects, interface) {
            Ok(object_path) => Ok(Adapter { object_path }),
            Err(e) => Err(e),
        }
    }

    /// The call that reads the adapter property `property`.
    fn get(&self, property: &str) -> (call: MethodCall)
        ensures
            call@ == get_call(self@, property@),
    {
        let mut arguments: Vec<Argument> = Vec::new();
        arguments.push(Argument::Str(ADAPTER_IFACE.to_string()));
        arguments.push(Argument::Str(property.to_string()));
        let call = MethodCall {
            path: self.object_path.clone(),
            interface: DBUS_PROPERTIES_IFACE.to_string(),
            member: "Get".to_string(),
            arguments,
        };
        assert(call@.arguments =~= get_call(self@, property@).arguments);
        call
    }

    /// The call that writes `value` to the adapter property `property`.
    fn set(&self, property: &str, value: Value) -> (call: MethodCall)
        ensures
            call@ == set_call(self@, property@, value@),
    {
        let mut arguments: Vec<Argument> = Vec::new();
        arguments.push(Argument::Str(ADAPTER_IFACE.to_string()));
        arguments.push(Argument::Str(property.to_string()));
        arguments.push(Argument::Variant(value));
        let call = MethodCall {
            path: self.object_path.clone(),
            interface: DBUS_PROPERTIES_IFACE.to_string(),
            member: "Set".to_string(),
            arguments,
        };
        assert(call@.arguments =~= set_call(self@, property@, value@).arguments);
        call
    }

    /// The call that switches the adapter's radio on or off.
    pub fn powered(&self, on: bool) -> (call: MethodCall)
        ensures
            call@ == set_call(self@, "Powered"@, ValueView::Bool(on)),
    {
        self.set("Powered", Value::Bool(on))
    }

    /// The call that asks whether the adapter's radio is on.
    pub fn is_powered(&self) -> (call: MethodCall)
        ensures
            call@ == get_call(self@, "Powered"@),
    {
        self.get("Powered")
    }

    /// The call that asks for the adapter's friendly name.
    pub fn get_alias(&self) -> (call: MethodCall)
        ensures
            call@ == get_call(self@, "Alias"@),
    {
        self.get("Alias")
    }

    /// The call that gives the adapter the friendly name `alias`.
    pub fn set_alias(&self, alias: &str) -> (call: MethodCall)
        ensures
            call@ == set_call(self@, "Alias"@, ValueView::Str(alias@)),
    {
        self.set("Alias", Value::Str(alias.to_string()))
    }

    /// Reads the answer to [`Adapter::powered`] or [`Adapter::set_alias`]:
    /// the write took place unless the call was rejected.
    pub fn confirm_set(reply: Result<(), Rejection>) -> (r: Result<(), Error>)
        ensures
            result_view(r) == set_outcome(result_view(reply)),
    {
        match reply {
            Ok(_) => Ok(()),
            Err(rejection) => Err(Error::Protocol(ProtocolError::Rejected(rejection))),
        }
    }

    /// Reads the answer to [`Adapter::is_powered`]. A value that is not a
    /// truth value is a type mismatch.
    pub fn read_powered(reply: Result<Value, Rejection>) -> (r: Result<bool, Error>)
        ensures
            result_view(r) == bool_outcome(result_view(reply)),
    {
        match reply {
            Ok(value) => match value.into_bool() {
                Ok(on) => Ok(on),
                Err(mismatch) => Err(Error::Protocol(mismatch)),
            },
            Err(rejection) => Err(Error::Protocol(ProtocolError::Rejected(rejection))),
        }
    }

    /// Reads the answer to [`Adapter::get_alias`]. A value that is not a text
    /// is a type mismatch.
    pub fn read_alias(reply: Result<Value, Rejection>) -> (r: Result<String, Error>)
        ensures
            result_view(r) == string_outcome(result_view(reply)),
    {
        match reply {
            Ok(value) => match value.into_string() {
                Ok(alias) => Ok(alias),
                Err(mismatch) => Err(Error::Protocol(mismatch)),
            },
            Err(rejection) => Err(Error::Protocol(ProtocolError::Rejected(rejection))),
        }
    }
}

/// Where one object alone can broadcast advertisements, it is the one
/// discovered, with no name asked for or with a name that its path contains.
pub proof fn lemma_sole_advertiser_is_discovered(
    objects: Seq<ManagedObjectView>,
    name: Option<Seq<char>>,
    index: int,
)
    requires
        0 <= index < objects.len(),
        advertises(objects[index]),
        forall|other: int|
            0 <= other < objects.len() && other != index ==> !advertises(#[trigger] objects[other]),
        name matches Some(wanted) ==> is_substring(wanted, objects[index].path),
    ensures
        discovered(objects, name) == Some(objects[index].path),
{
    lemma_first_qualifying_is_discovered(objects, name, index);
}

/// Where two objects can broadcast advertisements and the name asked for
/// occurs in the path of one of them only, that one is discovered, whichever
/// comes first.
pub proof fn lemma_name_selects_among_two(
    objects: Seq<ManagedObjectView>,
    wanted: Seq<char>,
    unnamed: int,
    named: int,
)
    requires
        0 <= unnamed < objects.len(),
        0 <= named < objects.len(),
        unnamed != named,
        advertises(objects[unnamed]),
        advertises(objects[named]),
        forall|other: int|
            0 <= other < objects.len() && other != unnamed && other != named ==> !advertises(
                #[trigger] objects[other],
            ),
        !is_substring(wanted, objects[unnamed].path),
        is_substring(wanted, objects[named].path),
    ensures
        discovered(objects, Some(wanted)) == Some(objects[named].path),
{
    lemma_first_qualifying_is_discovered(objects, Some(wanted), named);
}

/// Nothing is discovered exactly when no object qualifies; so it is where no
/// object can broadcast advertisements, whatever name is asked for.
pub proof fn lemma_nothing_discovered(objects: Seq<ManagedObjectView>, name: Option<Seq<char>>)
    ensures
        discovered(objects, name) is None <==> forall|index: int|
            0 <= index < objects.len() ==> !qualifies(#[trigger] objects[index], name),
        (forall|index: int| 0 <= index < objects.len() ==> !advertises(#[trigger] objects[index]))
            ==> discovered(objects, name) is None,
{
    if exists|index: int| 0 <= index < objects.len() && qualifies(#[trigger] objects[index], name) {
        let some = choose|index: int|
            0 <= index < objects.len() && qualifies(#[trigger] objects[index], name);
        lemma_some_qualifying_has_first(objects, name, some);
    }
}

/// Where some object qualifies, there is a first one.
proof fn lemma_some_qualifying_has_first(
    objects: Seq<ManagedObjectView>,
    name: Option<Seq<char>>,
    index: int,
)
    requires
        0 <= index < objects.len(),
        qualifies(objects[index], name),
    ensures
        exists|first: int| is_first_qualifying(objects, name, first),
    decreases index,
{
    if exists|earlier: int| 0 <= earlier < index && qualifies(#[trigger] objects[earlier], name) {
        let earlier = choose|earlier: int|
            0 <= earlier < index && qualifies(#[trigger] objects[earlier], name);
        lemma_some_qualifying_has_first(objects, name, earlier);
    } else {
        assert(is_first_qualifying(objects, name, index));
    }
}

/// The value that a `Set` call carries to the broker.
pub open spec fn carried_value(call: MethodCallView) -> Option<ValueView> {
    if call.arguments.len() == 3 {
        match call.arguments[2] {
            ArgumentView::Variant(value) => Some(value),
            ArgumentView::Str(_) => None,
        }
    } else {
        None
    }
}

/// The two calls speak of the same property of the same object.
pub open spec fn same_property(read: MethodCallView, write: MethodCallView) -> bool {
    &&& read.path == write.path
    &&& read.interface == write.interface
    &&& read.arguments.len() >= 2
    &&& write.arguments.len() >= 2
    &&& read.arguments[0] == write.arguments[0]
    &&& read.arguments[1] == write.arguments[1]
}

/// What [`Adapter::powered`] writes is what [`Adapter::read_powered`] reads:
/// the read and the write speak of the same property, and a broker that
/// answers the read with the value that the write carried makes the read
/// give `on`.
pub proof fn lemma_powered_reads_back(path: Seq<char>, on: bool)
    ensures
        same_property(get_call(path, "Powered"@), set_call(path, "Powered"@, ValueView::Bool(on))),
        carried_value(set_call(path, "Powered"@, ValueView::Bool(on))) == Some(ValueView::Bool(on)),
        bool_outcome(Ok(ValueView::Bool(on))) == Ok::<bool, ErrorView>(on),
{
}

/// What [`Adapter::set_alias`] writes is what [`Adapter::read_alias`] reads:
/// the read and the write speak of the same property, and a broker that
/// answers the read with the value that the write carried makes the read
/// give `alias`.
pub proof fn lemma_alias_reads_back(path: Seq<char>, alias: Seq<char>)
    ensures
        same_property(get_call(path, "Alias"@), set_call(path, "Alias"@, ValueView::Str(alias))),
        carried_value(set_call(path, "Alias"@, ValueView::Str(alias))) == Some(
            ValueView::Str(alias),
        ),
        string_outcome(Ok(ValueView::Str(alias))) == Ok::<Seq<char>, ErrorView>(alias),
{
}

/// An answer of the wrong shape is a type mismatch that names both shapes;
/// an answer of the right shape never is.
pub proof fn lemma_wrong_shape_is_mismatch(value: ValueView)
    ensures
        !(value is Bool) ==> bool_outcome(Ok(value)) == Err::<bool, ErrorView>(
            ErrorView::Protocol(
                ProtocolErrorView::TypeMismatch { expected: Kind::Bool, found: value.kind() },
            ),
        ) && value.kind() != Kind::Bool,
        !(value is Str) ==> string_outcome(Ok(value)) == Err::<Seq<char>, ErrorView>(
            ErrorView::Protocol(
                ProtocolErrorView::TypeMismatch { expected: Kind::Str, found: value.kind() },
            ),
        ) && value.kind() != Kind::Str,
        value is Bool ==> bool_outcome(Ok(value)) is Ok,
        value is Str ==> string_outcome(Ok(value)) is Ok,
{
}

} // verus!
