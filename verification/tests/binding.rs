use qmlrs::dispatch::{signal_id, slot_to_call, take_slot_args};
use qmlrs::qml::file_url;
use qmlrs::request::Request;
use qmlrs::text::QtStr;
use qmlrs::variant::{copy_variants, decode_variant, VariantKind};
use qmlrs::{Engine, MetaObject, Object, Variant};

const ENGINE: usize = 0x1000;
const META: usize = 0x2000;
const OBJECT: usize = 0x3000;
const CWD: &str = "/home/user/qmlrs";

fn qt(s: &str) -> QtStr {
    QtStr::new(s)
}

#[test]
fn test_create_engine() {
    let engine = Engine::new_headless(ENGINE);
    assert_eq!(engine.exec(), Request::Exec);
}

#[test]
fn test_import() {
    let mut engine = Engine::new_headless(ENGINE);
    let load = engine.load_local_file(CWD, "tests/import_test.qml", false);
    assert_eq!(
        load,
        Request::LoadUrl { engine: ENGINE, url: qt("file:///home/user/qmlrs/tests/import_test.qml") }
    );
    assert_eq!(engine.exec(), Request::Exec);
}

#[test]
fn qobject_test() {
    let mut engine = Engine::new(ENGINE);
    let mut metaobj = MetaObject::new("Person", META);

    assert_eq!(metaobj.add_signal("nameChanged()"), 0);
    metaobj.add_property("name", "QString", Some("nameChanged()"));
    assert_eq!(metaobj.add_slot("test_slot()"), 1);
    assert_eq!(metaobj.add_method("func(QVariant)"), 2);

    assert_eq!(metaobj.instantiate(), Request::Instantiate { meta: META });
    let mut obj = Object::from_ptr(OBJECT);

    assert_eq!(
        obj.set_property("name", Variant::String("Kai".to_string())),
        Request::SetProperty { object: OBJECT, name: qt("name"), value: Variant::String("Kai".to_string()) }
    );
    assert_eq!(obj.emit(0, &[]), Request::Emit { object: OBJECT, method: 0, args: vec![] });

    assert_eq!(
        engine.set_property("person_one", &obj),
        Request::SetContextProperty { engine: ENGINE, name: qt("person_one"), object: OBJECT }
    );
    assert_eq!(
        engine.load_local_file(CWD, "tests/qobject_test.qml", false),
        Request::LoadUrl { engine: ENGINE, url: qt("file:///home/user/qmlrs/tests/qobject_test.qml") }
    );
    assert_eq!(engine.exec(), Request::Exec);
}

#[test]
fn singleton_test() {
    let mut engine = Engine::new(ENGINE);
    let mut metaobj = MetaObject::new("Person", META);

    assert_eq!(metaobj.add_signal("nameChanged()"), 0);
    assert_eq!(metaobj.add_signal("testSignal()"), 1);
    metaobj.add_property("name", "QString", Some("nameChanged()"));
    assert_eq!(metaobj.add_method("test()"), 2);

    metaobj.instantiate();
    let mut obj = Object::from_ptr(OBJECT);
    obj.set_property("name", Variant::String("Kai".to_string()));
    assert_eq!(obj.get_property("name"), Request::GetProperty { object: OBJECT, name: qt("name") });
    assert_eq!(obj.as_ptr(), OBJECT);

    // The slot of method index 2 emits signal 1 of the object it is called on.
    assert_eq!(Object::from_ptr(OBJECT).emit(1, &[]), Request::Emit { object: OBJECT, method: 1, args: vec![] });

    assert_eq!(
        engine.load_local_file(CWD, "tests/singleton.qml", false),
        Request::LoadUrl { engine: ENGINE, url: qt("file:///home/user/qmlrs/tests/singleton.qml") }
    );
}

#[test]
fn declaration_requests_follow_the_model() {
    let mut m = MetaObject::new("Person", META);
    let s = m.add_signal("nameChanged()");
    let t = m.add_slot("test_slot()");
    let f = m.add_method("func(QVariant)");
    m.add_property("name", "QString", Some("nameChanged()"));
    m.add_property("age", "int", None);
    assert_eq!(m.method_request(s), Request::AddSignal { meta: META, signature: qt("nameChanged()") });
    assert_eq!(m.method_request(t), Request::AddSlot { meta: META, signature: qt("test_slot()") });
    assert_eq!(m.method_request(f), Request::AddMethod { meta: META, signature: qt("func(QVariant)") });
    assert_eq!(
        m.property_request(0),
        Request::AddProperty { meta: META, name: qt("name"), ty: qt("QString"), notify: qt("nameChanged()") }
    );
    assert_eq!(
        m.property_request(1),
        Request::AddProperty { meta: META, name: qt("age"), ty: qt("int"), notify: qt("") }
    );
}

#[test]
fn properties_take_no_method_index() {
    let mut m = MetaObject::new("Thing", META);
    m.add_property("a", "int", None);
    m.add_property("b", "QString", Some("bChanged()"));
    assert_eq!(m.add_slot("s()"), 0);
    m.add_property("c", "int", None);
    assert_eq!(m.add_signal("bChanged()"), 1);
}

#[test]
fn string_arguments_carry_their_byte_length() {
    let q = QtStr::new("héllo");
    assert_eq!(q.as_str(), "héllo");
    assert_eq!(q.len(), 6);
    assert_eq!(QtStr::new("").len(), 0);
    assert_eq!(QtStr::new("").as_str(), "");
    assert_eq!(QtStr::from_string("日本".to_string()).len(), 6);
}

#[test]
fn engine_loads_url_and_data() {
    let mut engine = Engine::new(ENGINE);
    assert_eq!(
        engine.load_url("qrc:/main.qml"),
        Request::LoadUrl { engine: ENGINE, url: qt("qrc:/main.qml") }
    );
    assert_eq!(
        engine.load_data("import QtQuick 2.0\nItem {}"),
        Request::LoadData { engine: ENGINE, data: qt("import QtQuick 2.0\nItem {}") }
    );
}

#[test]
fn file_urls() {
    assert_eq!(file_url("/tmp/a.qml", false), "file:///tmp/a.qml");
    assert_eq!(file_url("C:\\x\\a.qml", true), "file:///C:\\x\\a.qml");
}

#[test]
fn absolute_local_file_is_not_joined_onto_cwd() {
    let mut engine = Engine::new(ENGINE);
    assert_eq!(
        engine.load_local_file(CWD, "/opt/app/main.qml", false),
        Request::LoadUrl { engine: ENGINE, url: qt("file:///opt/app/main.qml") }
    );
}

#[test]
fn call_narrows_the_method_index_to_a_c_int() {
    let obj = Object::from_ptr(OBJECT);
    let args = [Variant::I64(42), Variant::String("x".to_string())];
    assert_eq!(
        obj.call(2, &args),
        Request::Call { object: OBJECT, method: 2, args: args.to_vec() }
    );
    let big: isize = ((1i64 << 32) + 5) as isize;
    match obj.emit(big, &[]) {
        Request::Emit { method, .. } => assert_eq!(method, big as i32),
        other => panic!("unexpected {:?}", other),
    }
}

#[test]
fn delete_later_names_the_object() {
    let mut obj = Object::from_ptr(OBJECT);
    assert_eq!(obj.delete_later(), Request::DeleteLater { object: OBJECT });
}

#[test]
fn variants_copy_in_order() {
    let args = vec![Variant::I64(-1), Variant::String("a".to_string()), Variant::I64(7)];
    assert_eq!(copy_variants(&args), args);
    assert_eq!(args[1].clone(), Variant::String("a".to_string()));
}

#[test]
fn signal_ids_are_first_matches() {
    let signals = vec!["a()".to_string(), "b()".to_string(), "a()".to_string()];
    assert_eq!(signal_id(&signals, "a()"), 0);
    assert_eq!(signal_id(&signals, "b()"), 1);
}

#[test]
fn only_slot_indices_reach_a_slot() {
    assert_eq!(slot_to_call(2, 0), Some(0));
    assert_eq!(slot_to_call(2, 1), Some(1));
    assert_eq!(slot_to_call(2, 2), None);
    assert_eq!(slot_to_call(2, -1), None);
    assert_eq!(slot_to_call(0, 0), None);
}

#[test]
fn slot_arguments_stop_at_the_first_failed_conversion() {
    assert_eq!(take_slot_args(vec![Some(1i64), Some(2), Some(3)]), Ok(vec![1, 2, 3]));
    assert_eq!(take_slot_args::<i64>(vec![]), Ok(vec![]));
    assert_eq!(take_slot_args(vec![Some(1i64), None, Some(3)]), Err(2));
    assert_eq!(take_slot_args::<i64>(vec![None, None]), Err(1));
}

#[test]
fn variants_decode_by_kind() {
    assert_eq!(decode_variant(VariantKind::Int64, 42, vec![]), Some(Variant::I64(42)));
    assert_eq!(
        decode_variant(VariantKind::String, 0, "Kai".as_bytes().to_vec()),
        Some(Variant::String("Kai".to_string()))
    );
    assert_eq!(
        decode_variant(VariantKind::String, 0, vec![0xc3, 0xa9]),
        Some(Variant::String("é".to_string()))
    );
    assert_eq!(decode_variant(VariantKind::String, 0, vec![0xff, 0x00]), None);
    assert_eq!(decode_variant(VariantKind::Unsupported, 7, b"x".to_vec()), None);
}

#[test]
fn object_handle_survives_operations() {
    let mut obj = Object::from_ptr(OBJECT);
    obj.set_property("name", Variant::I64(1));
    obj.get_property("name");
    obj.call(0, &[]);
    obj.emit(1, &[]);
    obj.delete_later();
    assert_eq!(obj.as_ptr(), OBJECT);
    assert_eq!(obj.as_ptr(), OBJECT);
}

#[test]
fn local_file_joins_onto_the_directory() {
    let mut engine = Engine::new(ENGINE);
    assert_eq!(
        engine.load_local_file("/home/user/", "a.qml", false),
        Request::LoadUrl { engine: ENGINE, url: qt("file:///home/user/a.qml") }
    );
    assert_eq!(
        engine.load_local_file("/home/user", "a.qml", true),
        Request::LoadUrl { engine: ENGINE, url: qt("file:////home/user/a.qml") }
    );
}
