use easy_jni::jni::errors::Error;
use easy_jni::jni::objects::{JObject, JString};
use easy_jni::{
    primitive_to_rust, propagate, require_string, text_to_rust, BoundaryValue, EasyJniError,
    JavaType,
};

fn decode(input: BoundaryValue<JObject<'static>>) -> Result<JavaType, EasyJniError> {
    primitive_to_rust(&input)
}

#[test]
fn a_byte_of_four_is_decoded() {
    assert_eq!(decode(BoundaryValue::Byte(4)), Ok(JavaType::Byte(4)));
}

#[test]
fn a_byte_below_zero_is_refused() {
    assert_eq!(
        decode(BoundaryValue::Byte(-4)),
        Err(EasyJniError::ByteLessThanZeroNotSupported)
    );
}

#[test]
fn bytes_at_the_edges() {
    assert_eq!(decode(BoundaryValue::Byte(0)), Ok(JavaType::Byte(0)));
    assert_eq!(decode(BoundaryValue::Byte(127)), Ok(JavaType::Byte(127)));
    assert_eq!(
        decode(BoundaryValue::Byte(-1)),
        Err(EasyJniError::ByteLessThanZeroNotSupported)
    );
    assert_eq!(
        decode(BoundaryValue::Byte(-128)),
        Err(EasyJniError::ByteLessThanZeroNotSupported)
    );
}

#[test]
fn a_flag_of_zero_is_false() {
    assert_eq!(decode(BoundaryValue::Bool(0)), Ok(JavaType::Boolean(false)));
}

#[test]
fn every_other_flag_is_true() {
    assert_eq!(decode(BoundaryValue::Bool(1)), Ok(JavaType::Boolean(true)));
    assert_eq!(decode(BoundaryValue::Bool(2)), Ok(JavaType::Boolean(true)));
    assert_eq!(decode(BoundaryValue::Bool(255)), Ok(JavaType::Boolean(true)));
}

#[test]
fn numbers_are_decoded_as_themselves() {
    assert_eq!(decode(BoundaryValue::Short(50)), Ok(JavaType::Short(50)));
    assert_eq!(decode(BoundaryValue::Int(50)), Ok(JavaType::Int(50)));
    assert_eq!(decode(BoundaryValue::Long(50)), Ok(JavaType::Long(50)));
    assert_eq!(decode(BoundaryValue::Short(i16::MIN)), Ok(JavaType::Short(i16::MIN)));
    assert_eq!(decode(BoundaryValue::Int(i32::MAX)), Ok(JavaType::Int(i32::MAX)));
    assert_eq!(decode(BoundaryValue::Long(i64::MIN)), Ok(JavaType::Long(i64::MIN)));
}

#[test]
fn floating_point_numbers_keep_their_bits() {
    let single = 504.99f32;
    let double = 504.99f64;
    assert_eq!(
        decode(BoundaryValue::Float(single.to_bits())),
        Ok(JavaType::Float(single.to_bits()))
    );
    assert_eq!(
        decode(BoundaryValue::Double(double.to_bits())),
        Ok(JavaType::Double(double.to_bits()))
    );
    match decode(BoundaryValue::Float(single.to_bits())) {
        Ok(JavaType::Float(bits)) => assert_eq!(f32::from_bits(bits), 504.99f32),
        other => panic!("not a float: {:?}", other),
    }
}

#[test]
fn void_is_decoded_as_void() {
    assert_eq!(decode(BoundaryValue::Void), Ok(JavaType::Void));
}

#[test]
fn a_character_is_not_decoded() {
    assert_eq!(
        decode(BoundaryValue::Char(65)),
        Err(EasyJniError::UnsupportedJavaType)
    );
}

#[test]
fn a_reference_is_not_decoded_without_the_virtual_machine() {
    assert_eq!(
        decode(BoundaryValue::Object(JObject::null())),
        Err(EasyJniError::UnsupportedJavaType)
    );
}

#[test]
fn a_borrowed_value_is_the_same_value() {
    let owned: BoundaryValue<JObject<'static>> = BoundaryValue::Int(42);
    assert!(matches!(owned.borrow(), BoundaryValue::Int(42)));
    let owned: BoundaryValue<JObject<'static>> = BoundaryValue::Bool(2);
    assert!(matches!(owned.borrow(), BoundaryValue::Bool(2)));
    let owned: BoundaryValue<JObject<'static>> = BoundaryValue::Void;
    assert!(matches!(owned.borrow(), BoundaryValue::Void));
    let owned = BoundaryValue::Object(JObject::null());
    match owned.borrow() {
        BoundaryValue::Object(object) => assert!(object.as_raw().is_null()),
        other => panic!("not a reference: {:?}", other),
    }
    assert_eq!(primitive_to_rust(&owned.borrow()), primitive_to_rust(&owned));
}

#[test]
fn a_reference_to_a_string_may_go_on() {
    assert_eq!(require_string(Ok(true)), Ok(()));
}

#[test]
fn a_reference_to_anything_else_is_unsupported() {
    assert_eq!(
        require_string(Ok(false)),
        Err(EasyJniError::UnsupportedJavaType)
    );
}

#[test]
fn a_failed_question_is_the_layers_failure() {
    assert_eq!(
        require_string(Err(Error::JavaException)),
        Err(EasyJniError::FromJniCrate(String::from(
            "Java exception was thrown"
        )))
    );
}

#[test]
fn a_text_that_was_read_is_a_string_value() {
    assert_eq!(
        text_to_rust(Ok(String::from("MY_TEST_STRING"))),
        Ok(JavaType::String(String::from("MY_TEST_STRING")))
    );
    assert_eq!(
        text_to_rust(Ok(String::new())),
        Ok(JavaType::String(String::new()))
    );
}

#[test]
fn a_text_that_could_not_be_read_is_the_layers_failure() {
    assert_eq!(
        text_to_rust(Err(Error::NullPtr("get_string obj argument"))),
        Err(EasyJniError::FromJniCrate(String::from(
            "Null pointer in get_string obj argument"
        )))
    );
}

#[test]
fn a_failure_of_the_layer_keeps_its_description() {
    assert_eq!(
        EasyJniError::from(Error::JavaException),
        EasyJniError::FromJniCrate(String::from("Java exception was thrown"))
    );
    assert_eq!(
        EasyJniError::from(Error::WrongJValueType("int", "see java field")),
        EasyJniError::FromJniCrate(String::from(
            "Invalid JValue type cast: int. Actual type: see java field"
        ))
    );
    assert_eq!(
        EasyJniError::from(Error::FieldNotFound {
            name: String::from("message"),
            sig: String::from("I"),
        }),
        EasyJniError::FromJniCrate(String::from("Field not found: message I"))
    );
}

#[test]
fn a_success_of_the_layer_is_handed_on() {
    assert_eq!(propagate(Ok(7)), Ok(7));
    assert_eq!(propagate(Ok("text")), Ok("text"));
    assert_eq!(
        propagate::<i32>(Err(Error::InvalidCtorReturn)),
        Err(EasyJniError::FromJniCrate(String::from(
            "Invalid constructor return type (must be void)"
        )))
    );
}

#[test]
fn a_string_that_was_made_is_handed_out_as_a_reference() {
    match JavaType::string_to_jvalue(Ok(JString::default())) {
        Ok(BoundaryValue::Object(object)) => assert!(object.as_raw().is_null()),
        other => panic!("not a reference: {:?}", other),
    }
}

#[test]
fn a_string_that_was_not_made_keeps_its_failure() {
    let failure = EasyJniError::FromJniCrate(String::from("Java exception was thrown"));
    match JavaType::string_to_jvalue(Err(failure)) {
        Err(EasyJniError::FromJniCrate(detail)) => {
            assert_eq!(detail, "Java exception was thrown")
        }
        other => panic!("not the failure: {:?}", other),
    }
    assert!(matches!(
        JavaType::string_to_jvalue(Err(EasyJniError::UnsupportedJavaType)),
        Err(EasyJniError::UnsupportedJavaType)
    ));
}
