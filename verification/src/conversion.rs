//! Values as they cross the boundary, and their decoding into native values.

use crate::boundary::{get_string, is_instance_of};
use crate::errors::{EasyJNIResult, EasyJniError};
use crate::java_types::{JavaType, JavaTypeSignature};
use jni::errors::Error;
use jni::objects::{JClass, JObject};
use jni::JNIEnv;
use vstd::prelude::*;

verus! {

/// A value on the Java side of the boundary: a primitive, `void`, or a
/// reference to an object.
///
/// `O` is the reference: an owned one in what this crate hands out, a
/// borrowed one in what it takes. A `Float` and a `Double` carry the bits of
/// the IEEE 754 number, a `Bool` the eight-bit flag and a `Char` the UTF-16
/// unit, each as Java passes it.
#[derive(Debug)]
pub enum BoundaryValue<O> {
    Object(O),
    Byte(i8),
    Char(u16),
    Short(i16),
    Int(i32),
    Long(i64),
    Bool(u8),
    Float(u32),
    Double(u64),
    Void,
}

impl<O: Copy> Copy for BoundaryValue<O> {

}

impl<O: Copy> Clone for BoundaryValue<O> {
    fn clone(&self) -> (value: Self)
        ensures
            value == *self,
    {
        *self
    }
}

impl<O> BoundaryValue<O> {
    /// The same value, its reference borrowed.
    pub open spec fn borrowed(&self) -> BoundaryValue<&O> {
        match self {
            BoundaryValue::Object(object) => BoundaryValue::Object(object),
            BoundaryValue::Byte(byte) => BoundaryValue::Byte(*byte),
            BoundaryValue::Char(unit) => BoundaryValue::Char(*unit),
            BoundaryValue::Short(number) => BoundaryValue::Short(*number),
            BoundaryValue::Int(number) => BoundaryValue::Int(*number),
            BoundaryValue::Long(number) => BoundaryValue::Long(*number),
            BoundaryValue::Bool(flag) => BoundaryValue::Bool(*flag),
            BoundaryValue::Float(bits) => BoundaryValue::Float(*bits),
            BoundaryValue::Double(bits) => BoundaryValue::Double(*bits),
            BoundaryValue::Void => BoundaryValue::Void,
        }
    }

    /// The kind as which the value is handed to Java: that of its variant,
    /// and for a reference that of a string, the only reference that this
    /// crate makes to hand over.
    pub open spec fn kind_handed(self) -> JavaTypeSignature {
        match self {
            BoundaryValue::Object(_) => JavaTypeSignature::String,
            BoundaryValue::Byte(_) => JavaTypeSignature::Byte,
            BoundaryValue::Char(_) => JavaTypeSignature::Char,
            BoundaryValue::Short(_) => JavaTypeSignature::Short,
            BoundaryValue::Int(_) => JavaTypeSignature::Int,
            BoundaryValue::Long(_) => JavaTypeSignature::Long,
            BoundaryValue::Bool(_) => JavaTypeSignature::Boolean,
            BoundaryValue::Float(_) => JavaTypeSignature::Float,
            BoundaryValue::Double(_) => JavaTypeSignature::Double,
            BoundaryValue::Void => JavaTypeSignature::Void,
        }
    }

    /// The same value, its reference borrowed: what was handed out can be
    /// handed in again.
    pub fn borrow(&self) -> (value: BoundaryValue<&O>)
        ensures
            value == self.borrowed(),
    {
        match self {
            BoundaryValue::Object(object) => BoundaryValue::Object(object),
            BoundaryValue::Byte(byte) => BoundaryValue::Byte(*byte),
            BoundaryValue::Char(unit) => BoundaryValue::Char(*unit),
            BoundaryValue::Short(number) => BoundaryValue::Short(*number),
            BoundaryValue::Int(number) => BoundaryValue::Int(*number),
            BoundaryValue::Long(number) => BoundaryValue::Long(*number),
            BoundaryValue::Bool(flag) => BoundaryValue::Bool(*flag),
            BoundaryValue::Float(bits) => BoundaryValue::Float(*bits),
            BoundaryValue::Double(bits) => BoundaryValue::Double(*bits),
            BoundaryValue::Void => BoundaryValue::Void,
        }
    }

    /// What the value is on the native side, as far as the value alone says.
    ///
    /// A number and `void` are themselves. A byte below zero has no native
    /// counterpart. A flag is `false` when it is 0 and `true` otherwise.
    /// A character is not carried over, and what a reference points to is
    /// not known from the reference: here both are unsupported.
    pub open spec fn decoded(self) -> EasyJNIResult<JavaType> {
        match self {
            BoundaryValue::Byte(byte) => if byte < 0 {
                Err(EasyJniError::ByteLessThanZeroNotSupported)
            } else {
                Ok(JavaType::Byte(byte as u8))
            },
            BoundaryValue::Short(number) => Ok(JavaType::Short(number)),
            BoundaryValue::Int(number) => Ok(JavaType::Int(number)),
            BoundaryValue::Long(number) => Ok(JavaType::Long(number)),
            BoundaryValue::Float(bits) => Ok(JavaType::Float(bits)),
            BoundaryValue::Double(bits) => Ok(JavaType::Double(bits)),
            BoundaryValue::Bool(flag) => Ok(JavaType::Boolean(flag != 0)),
            BoundaryValue::Void => Ok(JavaType::Void),
            BoundaryValue::Char(_) => Err(EasyJniError::UnsupportedJavaType),
            BoundaryValue::Object(_) => Err(EasyJniError::UnsupportedJavaType),
        }
    }
}

/// Encoding a native value and decoding what came out gives the value back,
/// whether what came out is handed in as it is or borrowed.
///
/// This holds of every value that is encoded without the virtual machine,
/// but for a byte above 127: Java has no such byte, and it is encoded as
/// 127.
pub proof fn lemma_encoding_round_trips<O>(value: JavaType)
    requires
        value.encoded::<O>() is Some,
        value matches JavaType::Byte(byte) ==> byte <= 127,
    ensures
        value.encoded::<O>().unwrap().decoded() == Ok::<JavaType, EasyJniError>(value),
        value.encoded::<O>().unwrap().borrowed().decoded() == Ok::<JavaType, EasyJniError>(value),
{
}

/// Borrowing the reference of a value changes nothing in its decoding.
pub proof fn lemma_borrowing_keeps_the_decoding<O>(value: BoundaryValue<O>)
    ensures
        value.borrowed().decoded() == value.decoded(),
{
}

/// A byte above 127 does not survive the boundary: it is encoded as 127,
/// the greatest Java byte, and that is what comes back.
pub proof fn lemma_high_byte_comes_back_as_127<O>(byte: u8)
    requires
        byte > 127,
    ensures
        JavaType::Byte(byte).encoded::<O>() == Some(BoundaryValue::<O>::Byte(127)),
        JavaType::Byte(byte).encoded::<O>().unwrap().decoded() == Ok::<JavaType, EasyJniError>(
            JavaType::Byte(127),
        ),
{
}

/// No byte is encoded as a negative Java byte, and a byte up to 127 is
/// encoded as itself.
pub proof fn lemma_encoded_byte_is_in_range<O>(byte: u8)
    ensures
        JavaType::Byte(byte).encoded::<O>() matches Some(BoundaryValue::Byte(encoded)) && 0
            <= encoded <= 127 && (byte <= 127 ==> encoded == byte),
{
}

/// Decodes a value that needs no call into the virtual machine, as
/// [`BoundaryValue::decoded`] says.
pub fn primitive_to_rust<O>(input: &BoundaryValue<O>) -> (result: EasyJNIResult<JavaType>)
    ensures
        result == input.decoded(),
{
    match input {
        BoundaryValue::Byte(byte) => {
            if *byte < 0 {
                Err(EasyJniError::ByteLessThanZeroNotSupported)
            } else {
                Ok(JavaType::Byte(*byte as u8))
            }
        },
        BoundaryValue::Short(number) => Ok(JavaType::Short(*number)),
        BoundaryValue::Int(number) => Ok(JavaType::Int(*number)),
        BoundaryValue::Long(number) => Ok(JavaType::Long(*number)),
        BoundaryValue::Float(bits) => Ok(JavaType::Float(*bits)),
        BoundaryValue::Double(bits) => Ok(JavaType::Double(*bits)),
        BoundaryValue::Bool(flag) => Ok(JavaType::Boolean(*flag != 0)),
        BoundaryValue::Void => Ok(JavaType::Void),
        BoundaryValue::Char(_) => Err(EasyJniError::UnsupportedJavaType),
        BoundaryValue::Object(_) => Err(EasyJniError::UnsupportedJavaType),
    }
}

/// What follows from asking the virtual machine whether a reference is one
/// to a string: to go on if it is, `UnsupportedJavaType` if it is not, and
/// the JNI layer's failure if the question failed.
pub fn require_string(check: Result<bool, Error>) -> (result: EasyJNIResult<()>)
    ensures
        check matches Ok(is_string) ==> result == if is_string {
            Ok::<(), EasyJniError>(())
        } else {
            Err::<(), EasyJniError>(EasyJniError::UnsupportedJavaType)
        },
        check matches Err(failure) ==> (result matches Err(surfaced) && surfaced.surfaces(failure)),
{
    match check {
        Ok(true) => Ok(()),
        Ok(false) => Err(EasyJniError::UnsupportedJavaType),
        Err(failure) => Err(EasyJniError::from(failure)),
    }
}

/// What follows from reading the text of a Java string: the text as a
/// native value, or the JNI layer's failure.
pub fn text_to_rust(text: Result<String, Error>) -> (result: EasyJNIResult<JavaType>)
    ensures
        text matches Ok(read) ==> result == Ok::<JavaType, EasyJniError>(JavaType::String(read)),
        text matches Err(failure) ==> (result matches Err(surfaced) && surfaced.surfaces(failure)),
{
    match text {
        Ok(read) => Ok(JavaType::String(read)),
        Err(failure) => Err(EasyJniError::from(failure)),
    }
}

/// Decodes a value that came from Java.
///
/// Anything but a reference is decoded as [`BoundaryValue::decoded`] says,
/// and the virtual machine is left alone. A reference is decoded with the
/// virtual machine's help: to a text if it points to a string, as
/// [`text_to_rust`] says, and to `UnsupportedJavaType` if it points to
/// anything else, as [`require_string`] says.
pub fn to_rust<'local>(
    env: &mut JNIEnv<'local>,
    _class: &JClass<'local>,
    input: BoundaryValue<&JObject>,
) -> (result: EasyJNIResult<JavaType>)
    ensures
        input !is Object ==> result == input.decoded() && *final(env) == *old(env),
        input is Object ==> (result matches Ok(value) ==> value is String),
        input is Object ==> (result matches Err(failure) ==> failure
            == EasyJniError::UnsupportedJavaType || failure is FromJniCrate),
{
    match input {
        BoundaryValue::Object(object) => {
            let class_name = JavaTypeSignature::String.java_class_name();
            match require_string(is_instance_of(env, object, class_name)) {
                Ok(()) => text_to_rust(get_string(env, object)),
                Err(failure) => Err(failure),
            }
        },
        _ => primitive_to_rust(&input),
    }
}

} // verus!
