//! The calls this crate makes into the JNI layer.
//!
//! Every item here is taken on trust: the types are opaque, and what a call
//! into the virtual machine returns is decided there. No such call promises
//! anything of its outcome; what it asks of its arguments leaves out those
//! on which the JNI layer would panic. The one result that is stated is the
//! description of a failure, which depends on the failure alone.

use crate::conversion::BoundaryValue;
use crate::java_types::JavaTypeSignature;
use jni::errors::Error;
use jni::objects::{JClass, JObject, JObjectArray, JString, JValueGen};
use jni::sys::{jdouble, jfloat};
use jni::JNIEnv;
use vstd::prelude::*;

verus! {

/// `jni::JNIEnv`, the handle to the virtual machine for the current thread.
#[verifier::external_type_specification]
#[verifier::external_body]
pub struct ExJNIEnv<'local>(JNIEnv<'local>);

/// `jni::sys::_jobject`, what a raw JNI reference points to. `JObject`
/// dereferences to such a reference, so the type has to be known; this crate
/// never handles one.
#[verifier::external_type_specification]
#[verifier::external_body]
pub struct ExRawObject(jni::sys::_jobject);

/// `jni::objects::JObject`, a local reference to a Java object, or null.
#[verifier::external_type_specification]
#[verifier::external_body]
pub struct ExJObject<'local>(JObject<'local>);

/// `jni::objects::JClass`, a local reference to a Java class.
#[verifier::external_type_specification]
#[verifier::external_body]
pub struct ExJClass<'local>(JClass<'local>);

/// `jni::objects::JString`, a local reference to a Java string.
#[verifier::external_type_specification]
#[verifier::external_body]
pub struct ExJString<'local>(JString<'local>);

/// `jni::objects::JObjectArray`, a local reference to a Java array of objects.
#[verifier::external_type_specification]
#[verifier::external_body]
pub struct ExJObjectArray<'local>(JObjectArray<'local>);

/// `jni::objects::JValueGen`, the argument of a Java call in the JNI layer's own form.
#[verifier::external_type_specification]
#[verifier::external_body]
#[verifier::reject_recursive_types(O)]
pub struct ExJValueGen<O>(JValueGen<O>);

/// `jni::errors::Error`, a failure reported by the JNI layer.
#[verifier::external_type_specification]
#[verifier::external_body]
pub struct ExError(Error);

/// Whether a field descriptor reads as a method signature: it opens with `(`.
pub open spec fn opens_method_signature(descriptor: Seq<char>) -> bool {
    descriptor.len() > 0 && descriptor[0] == '('
}

/// Whether the first parameter of a constructor's signature reads as a method
/// signature: the signature goes on with `(` behind its own opening bracket.
pub open spec fn takes_method_signature(constructor: Seq<char>) -> bool {
    constructor.len() > 1 && constructor[1] == '('
}

/// Whether a name is the binary name of the class of a kind which an array
/// can hold: of any kind but `void`.
pub open spec fn is_element_class(name: Seq<char>) -> bool {
    exists|kind: JavaTypeSignature|
        kind != JavaTypeSignature::Void && name == #[trigger] kind.class_name()
}

/// `JNIEnv::find_class`: looks a class up by its binary name.
#[verifier::external_body]
pub(crate) fn find_class<'local>(env: &mut JNIEnv<'local>, name: &str) -> (outcome: Result<JClass<'local>, Error>)
{
    env.find_class(name)
}

/// `JNIEnv::alloc_object`, given the class by its binary name: the class is
/// looked up and an instance allocated, with no constructor run.
#[verifier::external_body]
pub(crate) fn alloc_object<'local>(env: &mut JNIEnv<'local>, class_name: &str) -> (outcome: Result<JObject<'local>, Error>)
{
    env.alloc_object(class_name)
}

/// `JNIEnv::new_object`, given the class by its binary name and one
/// argument, which is handed over as a `JValue` of the same variant: the
/// class is looked up and an instance made by the constructor of the given
/// signature.
///
/// The JNI layer panics where a parameter of the signature that it holds
/// against an argument is itself a method signature; with one argument that
/// can only be the first, which is left out. Beyond that the class and the
/// signature have to be those of the argument's kind.
#[verifier::external_body]
pub(crate) fn new_object<'local>(
    env: &mut JNIEnv<'local>,
    class_name: &str,
    constructor: &str,
    argument: &BoundaryValue<JObject>,
) -> (outcome: Result<JObject<'local>, Error>)
    requires
        !takes_method_signature(constructor@),
        class_name@ == argument.kind_handed().class_name(),
        constructor@ == argument.kind_handed().constructor_descriptor(),
{
    env.new_object(class_name, constructor, &[match argument {
        BoundaryValue::Object(object) => JValueGen::Object(object),
        BoundaryValue::Byte(number) => JValueGen::Byte(*number),
        BoundaryValue::Char(unit) => JValueGen::Char(*unit),
        BoundaryValue::Short(number) => JValueGen::Short(*number),
        BoundaryValue::Int(number) => JValueGen::Int(*number),
        BoundaryValue::Long(number) => JValueGen::Long(*number),
        BoundaryValue::Bool(flag) => JValueGen::Bool(*flag),
        BoundaryValue::Float(bits) => JValueGen::Float(jfloat::from_bits(*bits)),
        BoundaryValue::Double(bits) => JValueGen::Double(jdouble::from_bits(*bits)),
        BoundaryValue::Void => JValueGen::Void,
    }])
}

/// `JNIEnv::new_string`: makes a Java string of the text.
#[verifier::external_body]
pub(crate) fn new_string<'local>(env: &mut JNIEnv<'local>, text: &str) -> (outcome: Result<JString<'local>, Error>)
{
    env.new_string(text)
}

/// `JNIEnv::is_instance_of`, given the class by its binary name: whether the
/// reference can be cast to the class.
#[verifier::external_body]
pub(crate) fn is_instance_of<'local>(
    env: &mut JNIEnv<'local>,
    object: &JObject,
    class_name: &str,
) -> (outcome: Result<bool, Error>)
{
    env.is_instance_of(object, class_name)
}

/// `JNIEnv::get_string`, on the reference taken as one to a string: the text
/// of the Java string.
#[verifier::external_body]
pub(crate) fn get_string<'local>(env: &mut JNIEnv<'local>, object: &JObject) -> (outcome: Result<String, Error>)
{
    env.get_string(<&JString>::from(object)).map(String::from)
}

/// `JNIEnv::set_field`: assigns the named field of the object from the
/// value, which is handed over as a `JValue` of the same variant.
///
/// The JNI layer panics where the field's descriptor reads as a method
/// signature, so that is left out. Beyond that the descriptor has to be
/// that of the value's kind.
#[verifier::external_body]
pub(crate) fn set_field<'local>(
    env: &mut JNIEnv<'local>,
    object: &JObject,
    name: &str,
    descriptor: &str,
    value: &BoundaryValue<JObject>,
) -> (outcome: Result<(), Error>)
    requires
        !opens_method_signature(descriptor@),
        descriptor@ == value.kind_handed().descriptor(),
{
    env.set_field(object, name, descriptor, match value {
        BoundaryValue::Object(object) => JValueGen::Object(object),
        BoundaryValue::Byte(number) => JValueGen::Byte(*number),
        BoundaryValue::Char(unit) => JValueGen::Char(*unit),
        BoundaryValue::Short(number) => JValueGen::Short(*number),
        BoundaryValue::Int(number) => JValueGen::Int(*number),
        BoundaryValue::Long(number) => JValueGen::Long(*number),
        BoundaryValue::Bool(flag) => JValueGen::Bool(*flag),
        BoundaryValue::Float(bits) => JValueGen::Float(jfloat::from_bits(*bits)),
        BoundaryValue::Double(bits) => JValueGen::Double(jdouble::from_bits(*bits)),
        BoundaryValue::Void => JValueGen::Void,
    })
}

/// `JNIEnv::new_object_array`, given the elements' class by its binary name:
/// an array of that many null references. The class has to be that of a
/// kind which an array can hold.
#[verifier::external_body]
pub(crate) fn new_object_array<'local>(
    env: &mut JNIEnv<'local>,
    length: i32,
    class_name: &str,
) -> (outcome: Result<JObjectArray<'local>, Error>)
    requires
        is_element_class(class_name@),
{
    env.new_object_array(length, class_name, JObject::null())
}

/// `JNIEnv::set_object_array_element`: stores the reference at the index.
#[verifier::external_body]
pub(crate) fn set_object_array_element<'local>(
    env: &mut JNIEnv<'local>,
    array: &JObjectArray,
    index: i32,
    value: &JObject,
) -> (outcome: Result<(), Error>)
{
    env.set_object_array_element(array, index, value)
}

/// `From<JString> for JObject`: the string's reference as a plain one.
#[verifier::external_body]
pub(crate) fn string_into_object<'local>(text: JString<'local>) -> (object: JObject<'local>)
{
    JObject::from(text)
}

/// What `Display` of `jni::errors::Error` writes for a failure: its own
/// description. The text depends on the failure alone.
pub uninterp spec fn description_of(failure: Error) -> Seq<char>;

/// `Display` of `jni::errors::Error`, through `to_string`: the failure's own
/// description, which [`description_of`] names.
#[verifier::external_body]
pub(crate) fn failure_text(failure: &Error) -> (text: String)
    ensures
        text@ == description_of(*failure),
{
    failure.to_string()
}

} // verus!
