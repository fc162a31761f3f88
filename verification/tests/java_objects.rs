use easy_jni::jni::objects::{JObject, JString};
use easy_jni::jni::{InitArgsBuilder, JNIEnv, JNIVersion, JavaVM};
use easy_jni::{Class, EasyJniError, JavaType};

/// The class file of
/// `public class RustyClass { public String message; public int count; public byte small; public boolean flag; public char letter; }`.
const RUSTY_CLASS: [u8; 244] = [
    0xca, 0xfe, 0xba, 0xbe, 0x00, 0x00, 0x00, 0x34, 0x00, 0x14, 0x0a, 0x00,
    0x02, 0x00, 0x03, 0x07, 0x00, 0x04, 0x0c, 0x00, 0x05, 0x00, 0x06, 0x01,
    0x00, 0x10, 0x6a, 0x61, 0x76, 0x61, 0x2f, 0x6c, 0x61, 0x6e, 0x67, 0x2f,
    0x4f, 0x62, 0x6a, 0x65, 0x63, 0x74, 0x01, 0x00, 0x06, 0x3c, 0x69, 0x6e,
    0x69, 0x74, 0x3e, 0x01, 0x00, 0x03, 0x28, 0x29, 0x56, 0x07, 0x00, 0x08,
    0x01, 0x00, 0x0a, 0x52, 0x75, 0x73, 0x74, 0x79, 0x43, 0x6c, 0x61, 0x73,
    0x73, 0x01, 0x00, 0x07, 0x6d, 0x65, 0x73, 0x73, 0x61, 0x67, 0x65, 0x01,
    0x00, 0x12, 0x4c, 0x6a, 0x61, 0x76, 0x61, 0x2f, 0x6c, 0x61, 0x6e, 0x67,
    0x2f, 0x53, 0x74, 0x72, 0x69, 0x6e, 0x67, 0x3b, 0x01, 0x00, 0x05, 0x63,
    0x6f, 0x75, 0x6e, 0x74, 0x01, 0x00, 0x01, 0x49, 0x01, 0x00, 0x05, 0x73,
    0x6d, 0x61, 0x6c, 0x6c, 0x01, 0x00, 0x01, 0x42, 0x01, 0x00, 0x04, 0x66,
    0x6c, 0x61, 0x67, 0x01, 0x00, 0x01, 0x5a, 0x01, 0x00, 0x06, 0x6c, 0x65,
    0x74, 0x74, 0x65, 0x72, 0x01, 0x00, 0x01, 0x43, 0x01, 0x00, 0x04, 0x43,
    0x6f, 0x64, 0x65, 0x00, 0x21, 0x00, 0x07, 0x00, 0x02, 0x00, 0x00, 0x00,
    0x05, 0x00, 0x01, 0x00, 0x09, 0x00, 0x0a, 0x00, 0x00, 0x00, 0x01, 0x00,
    0x0b, 0x00, 0x0c, 0x00, 0x00, 0x00, 0x01, 0x00, 0x0d, 0x00, 0x0e, 0x00,
    0x00, 0x00, 0x01, 0x00, 0x0f, 0x00, 0x10, 0x00, 0x00, 0x00, 0x01, 0x00,
    0x11, 0x00, 0x12, 0x00, 0x00, 0x00, 0x01, 0x00, 0x01, 0x00, 0x05, 0x00,
    0x06, 0x00, 0x01, 0x00, 0x13, 0x00, 0x00, 0x00, 0x11, 0x00, 0x01, 0x00,
    0x01, 0x00, 0x00, 0x00, 0x05, 0x2a, 0xb7, 0x00, 0x01, 0xb1, 0x00, 0x00,
    0x00, 0x00, 0x00, 0x00,
];

fn launch() -> JavaVM {
    let arguments = InitArgsBuilder::new()
        .version(JNIVersion::V8)
        .build()
        .expect("arguments for the virtual machine");
    JavaVM::new(arguments).expect("a Java virtual machine")
}

fn define_rusty_class(env: &mut JNIEnv) {
    let loader = env
        .call_static_method(
            "java/lang/ClassLoader",
            "getSystemClassLoader",
            "()Ljava/lang/ClassLoader;",
            &[],
        )
        .expect("the class loader")
        .l()
        .expect("a reference");
    env.define_class("RustyClass", &loader, &RUSTY_CLASS)
        .expect("the class RustyClass");
}

fn class_name_of(env: &mut JNIEnv, object: &JObject) -> String {
    let class = env.get_object_class(object).expect("the class of the object");
    let name = env
        .call_method(&class, "getName", "()Ljava/lang/String;", &[])
        .expect("the name of the class")
        .l()
        .expect("a reference");
    let name = JString::from(name);
    let text: String = env.get_string(&name).expect("the text of the name").into();
    text
}

#[test]
fn an_instance_is_allocated_with_its_fields_at_their_defaults() {
    let vm = launch();
    let mut env = vm
        .attach_current_thread_permanently()
        .expect("an attached thread");
    define_rusty_class(&mut env);
    let class = env.find_class("java/lang/Object").expect("a class");
    let object = Class::new("RustyClass")
        .create(&mut env, &class)
        .expect("an instance");
    assert_eq!(class_name_of(&mut env, &object), "RustyClass");
    let message = env
        .get_field(&object, "message", "Ljava/lang/String;")
        .expect("the field")
        .l()
        .expect("a reference");
    assert!(message.as_raw().is_null());
    let count = env.get_field(&object, "count", "I").expect("the field");
    assert_eq!(count.i().expect("an int"), 0);
}

#[test]
fn a_class_that_is_not_there_is_not_instantiated() {
    let vm = launch();
    let mut env = vm
        .attach_current_thread_permanently()
        .expect("an attached thread");
    let class = env.find_class("java/lang/Object").expect("a class");
    match Class::new("NoSuchClass").create(&mut env, &class) {
        Err(EasyJniError::FromJniCrate(detail)) => {
            assert_eq!(detail, "Java exception was thrown")
        }
        other => panic!("not a failure of the layer: {:?}", other),
    }
}

#[test]
fn a_class_of_the_platform_is_instantiated_by_its_binary_name() {
    let vm = launch();
    let mut env = vm
        .attach_current_thread_permanently()
        .expect("an attached thread");
    let class = env.find_class("java/lang/Object").expect("a class");
    let object = Class::new("java/lang/Throwable")
        .create(&mut env, &class)
        .expect("an instance");
    assert_eq!(class_name_of(&mut env, &object), "java.lang.Throwable");
}

#[test]
fn the_message_of_a_rusty_class_is_read_back() {
    let vm = launch();
    let mut env = vm
        .attach_current_thread_permanently()
        .expect("an attached thread");
    define_rusty_class(&mut env);
    let class = env.find_class("java/lang/Object").expect("a class");
    let object = Class::new("RustyClass")
        .create_and_build(
            &mut env,
            &class,
            "message",
            &JavaType::String(String::from("RUSTY_JNI_CLASS")),
        )
        .expect("an instance with its message");
    assert_eq!(class_name_of(&mut env, &object), "RustyClass");
    let message = env
        .get_field(&object, "message", "Ljava/lang/String;")
        .expect("the field")
        .l()
        .expect("a reference");
    let message = JString::from(message);
    let text: String = env.get_string(&message).expect("the text").into();
    assert_eq!(text, "RUSTY_JNI_CLASS");
    let count = env.get_field(&object, "count", "I").expect("the field");
    assert_eq!(count.i().expect("an int"), 0);
}

#[test]
fn a_primitive_field_is_assigned_as_it_is() {
    let vm = launch();
    let mut env = vm
        .attach_current_thread_permanently()
        .expect("an attached thread");
    define_rusty_class(&mut env);
    let class = env.find_class("java/lang/Object").expect("a class");
    let rusty = Class::new("RustyClass");

    let object = rusty
        .create_and_build(&mut env, &class, "count", &JavaType::Int(7))
        .expect("an instance with its count");
    let count = env.get_field(&object, "count", "I").expect("the field");
    assert_eq!(count.i().expect("an int"), 7);

    let object = rusty
        .create_and_build(&mut env, &class, "small", &JavaType::Byte(200))
        .expect("an instance with its byte");
    let small = env.get_field(&object, "small", "B").expect("the field");
    assert_eq!(small.b().expect("a byte"), 127);

    let object = rusty
        .create_and_build(&mut env, &class, "small", &JavaType::Byte(4))
        .expect("an instance with its byte");
    let small = env.get_field(&object, "small", "B").expect("the field");
    assert_eq!(small.b().expect("a byte"), 4);

    let object = rusty
        .create_and_build(&mut env, &class, "flag", &JavaType::Boolean(true))
        .expect("an instance with its flag");
    let flag = env.get_field(&object, "flag", "Z").expect("the field");
    assert!(flag.z().expect("a boolean"));
}

#[test]
fn a_value_of_another_kind_than_the_field_fails_at_the_boundary() {
    let vm = launch();
    let mut env = vm
        .attach_current_thread_permanently()
        .expect("an attached thread");
    define_rusty_class(&mut env);
    let class = env.find_class("java/lang/Object").expect("a class");
    match Class::new("RustyClass").create_and_build(&mut env, &class, "message", &JavaType::Int(5))
    {
        Err(EasyJniError::FromJniCrate(detail)) => {
            assert_eq!(detail, "Java exception was thrown")
        }
        other => panic!("not a failure of the layer: {:?}", other),
    }
}

#[test]
fn a_field_that_is_not_there_fails_at_the_boundary() {
    let vm = launch();
    let mut env = vm
        .attach_current_thread_permanently()
        .expect("an attached thread");
    define_rusty_class(&mut env);
    let class = env.find_class("java/lang/Object").expect("a class");
    assert!(matches!(
        Class::new("RustyClass").create_and_build(
            &mut env,
            &class,
            "absent",
            &JavaType::String(String::from("x")),
        ),
        Err(EasyJniError::FromJniCrate(_))
    ));
}

#[test]
fn a_character_field_is_assigned_its_unit() {
    let vm = launch();
    let mut env = vm
        .attach_current_thread_permanently()
        .expect("an attached thread");
    define_rusty_class(&mut env);
    let class = env.find_class("java/lang/Object").expect("a class");
    let rusty = Class::new("RustyClass");

    let object = rusty
        .create_and_build(&mut env, &class, "letter", &JavaType::Char('x'))
        .expect("an instance with its letter");
    let letter = env.get_field(&object, "letter", "C").expect("the field");
    assert_eq!(letter.c().expect("a char"), 120);

    let object = rusty
        .create_and_build(&mut env, &class, "letter", &JavaType::Char('\u{20ac}'))
        .expect("an instance with its letter");
    let letter = env.get_field(&object, "letter", "C").expect("the field");
    assert_eq!(letter.c().expect("a char"), 0x20ac);

    let object = rusty
        .create_and_build(&mut env, &class, "letter", &JavaType::Char('\u{ffff}'))
        .expect("an instance with its letter");
    let letter = env.get_field(&object, "letter", "C").expect("the field");
    assert_eq!(letter.c().expect("a char"), 0xffff);
}

#[test]
fn a_character_beyond_one_unit_is_not_assigned() {
    let vm = launch();
    let mut env = vm
        .attach_current_thread_permanently()
        .expect("an attached thread");
    define_rusty_class(&mut env);
    let class = env.find_class("java/lang/Object").expect("a class");
    assert!(matches!(
        Class::new("RustyClass").create_and_build(
            &mut env,
            &class,
            "letter",
            &JavaType::Char('\u{1f600}'),
        ),
        Err(EasyJniError::UnsupportedJavaType)
    ));
    assert!(matches!(
        Class::new("NoSuchClass").create_and_build(
            &mut env,
            &class,
            "letter",
            &JavaType::Char('\u{10000}'),
        ),
        Err(EasyJniError::UnsupportedJavaType)
    ));
}

#[test]
fn a_character_for_a_field_of_another_kind_fails_at_the_boundary() {
    let vm = launch();
    let mut env = vm
        .attach_current_thread_permanently()
        .expect("an attached thread");
    define_rusty_class(&mut env);
    let class = env.find_class("java/lang/Object").expect("a class");
    match Class::new("RustyClass").create_and_build(&mut env, &class, "count", &JavaType::Char('x'))
    {
        Err(EasyJniError::FromJniCrate(detail)) => {
            assert_eq!(detail, "Java exception was thrown")
        }
        other => panic!("not a failure of the layer: {:?}", other),
    }
}

#[test]
fn a_class_is_found_by_its_name() {
    let vm = launch();
    let mut env = vm
        .attach_current_thread_permanently()
        .expect("an attached thread");
    define_rusty_class(&mut env);
    let class = env.find_class("java/lang/Object").expect("a class");
    let found = Class::new("RustyClass")
        .find(&mut env, class)
        .expect("the class");
    let expected = env.find_class("RustyClass").expect("the class");
    assert!(env
        .is_same_object(&found, &expected)
        .expect("a comparison of the references"));
}
