//! The Java kinds this crate knows, the names the virtual machine gives
//! them, and native values of those kinds.

use crate::boundary::{
    alloc_object, find_class, new_object, new_string, opens_method_signature, string_into_object,
    takes_method_signature,
};
use crate::conversion::BoundaryValue;
use crate::errors::{propagate, EasyJNIResult, EasyJniError};
use jni::objects::{JClass, JObject, JString};
use jni::JNIEnv;
use vstd::prelude::*;

verus! {

/// One of the ten kinds of Java value that can cross the boundary.
#[derive(Debug, PartialEq, Eq, Structural, PartialOrd, Ord, Clone, Copy)]
pub enum JavaTypeSignature {
    Byte,
    Short,
    Int,
    Long,
    Float,
    Double,
    Boolean,
    Char,
    Void,
    String,
}

impl Default for JavaTypeSignature {
    fn default() -> (kind: Self)
        ensures
            kind == JavaTypeSignature::Void,
    {
        JavaTypeSignature::Void
    }
}

impl JavaTypeSignature {
    /// The field descriptor of the kind: one letter for a primitive and for
    /// `void`, the class's binary name between `L` and `;` for a string.
    pub open spec fn descriptor(self) -> Seq<char> {
        match self {
            JavaTypeSignature::Byte => "B"@,
            JavaTypeSignature::Short => "S"@,
            JavaTypeSignature::Int => "I"@,
            JavaTypeSignature::Long => "J"@,
            JavaTypeSignature::Float => "F"@,
            JavaTypeSignature::Double => "D"@,
            JavaTypeSignature::Boolean => "Z"@,
            JavaTypeSignature::Char => "C"@,
            JavaTypeSignature::Void => "V"@,
            JavaTypeSignature::String => "Ljava/lang/String;"@,
        }
    }

    /// The binary name of the class whose instances hold a value of the
    /// kind: the wrapper class of a primitive, `java/lang/String` itself for
    /// a string. This is the form a class is looked up by.
    pub open spec fn class_name(self) -> Seq<char> {
        match self {
            JavaTypeSignature::Byte => "java/lang/Byte"@,
            JavaTypeSignature::Short => "java/lang/Short"@,
            JavaTypeSignature::Int => "java/lang/Integer"@,
            JavaTypeSignature::Long => "java/lang/Long"@,
            JavaTypeSignature::Float => "java/lang/Float"@,
            JavaTypeSignature::Double => "java/lang/Double"@,
            JavaTypeSignature::Boolean => "java/lang/Boolean"@,
            JavaTypeSignature::Char => "java/lang/Character"@,
            JavaTypeSignature::Void => "java/lang/Void"@,
            JavaTypeSignature::String => "java/lang/String"@,
        }
    }

    /// The descriptor of an array of the kind: `[` before the field
    /// descriptor. It has a meaning for every kind but `void`.
    pub open spec fn array_descriptor(self) -> Seq<char> {
        seq!['['] + self.descriptor()
    }

    /// The signature of the constructor that makes an instance of the kind's
    /// class from one value of the kind: the field descriptor between `(`
    /// and `)V`.
    pub open spec fn constructor_descriptor(self) -> Seq<char> {
        seq!['('] + self.descriptor() + seq![')', 'V']
    }

    /// No field descriptor is empty, and none reads as a method signature,
    /// neither by itself nor as the parameter of the constructor.
    pub proof fn lemma_descriptor_is_no_method(self)
        ensures
            self.descriptor().len() > 0,
            !opens_method_signature(self.descriptor()),
            !takes_method_signature(self.constructor_descriptor()),
    {
        reveal_strlit("B");
        reveal_strlit("S");
        reveal_strlit("I");
        reveal_strlit("J");
        reveal_strlit("F");
        reveal_strlit("D");
        reveal_strlit("Z");
        reveal_strlit("C");
        reveal_strlit("V");
        reveal_strlit("Ljava/lang/String;");
    }

    /// The descriptor of a string is its class's binary name between `L` and
    /// `;`: the two forms are never the same text.
    pub proof fn lemma_string_descriptor_wraps_class_name()
        ensures
            JavaTypeSignature::String.descriptor() == seq!['L']
                + JavaTypeSignature::String.class_name() + seq![';'],
            JavaTypeSignature::String.descriptor() != JavaTypeSignature::String.class_name(),
    {
        reveal_strlit("Ljava/lang/String;");
        reveal_strlit("java/lang/String");
        assert(JavaTypeSignature::String.descriptor() =~= seq!['L']
            + JavaTypeSignature::String.class_name() + seq![';']);
        assert(JavaTypeSignature::String.descriptor().len()
            != JavaTypeSignature::String.class_name().len());
    }

    /// The field descriptor of the kind, as the virtual machine writes it.
    pub fn java_signature(&self) -> (descriptor: &'static str)
        ensures
            descriptor@ == self.descriptor(),
    {
        match self {
            Self::Byte => "B",
            Self::Short => "S",
            Self::Int => "I",
            Self::Long => "J",
            Self::Float => "F",
            Self::Double => "D",
            Self::Boolean => "Z",
            Self::Char => "C",
            Self::Void => "V",
            Self::String => "Ljava/lang/String;",
        }
    }

    /// The binary name of the kind's class, as class lookup takes it.
    pub fn java_class_name(&self) -> (name: &'static str)
        ensures
            name@ == self.class_name(),
    {
        match self {
            Self::Byte => "java/lang/Byte",
            Self::Short => "java/lang/Short",
            Self::Int => "java/lang/Integer",
            Self::Long => "java/lang/Long",
            Self::Float => "java/lang/Float",
            Self::Double => "java/lang/Double",
            Self::Boolean => "java/lang/Boolean",
            Self::Char => "java/lang/Character",
            Self::Void => "java/lang/Void",
            Self::String => "java/lang/String",
        }
    }

    /// The descriptor of an array of the kind. There is no array of `void`:
    /// that kind, and no other, is refused.
    pub fn java_class_name_array(&self) -> (result: EasyJNIResult<&'static str>)
        ensures
            *self == JavaTypeSignature::Void ==> result == Err::<&str, EasyJniError>(
                EasyJniError::ArrayOfVoidNotAllowed,
            ),
            *self != JavaTypeSignature::Void ==> (result matches Ok(descriptor)
                && descriptor@ == self.array_descriptor() && descriptor@[0] == '['),
    {
        proof {
            reveal_strlit("B");
            reveal_strlit("S");
            reveal_strlit("I");
            reveal_strlit("J");
            reveal_strlit("F");
            reveal_strlit("D");
            reveal_strlit("Z");
            reveal_strlit("C");
            reveal_strlit("Ljava/lang/String;");
            reveal_strlit("[B");
            reveal_strlit("[S");
            reveal_strlit("[I");
            reveal_strlit("[J");
            reveal_strlit("[F");
            reveal_strlit("[D");
            reveal_strlit("[Z");
            reveal_strlit("[C");
            reveal_strlit("[Ljava/lang/String;");
        }
        let class_name = match self {
            Self::Byte => "[B",
            Self::Short => "[S",
            Self::Int => "[I",
            Self::Long => "[J",
            Self::Float => "[F",
            Self::Double => "[D",
            Self::Boolean => "[Z",
            Self::Char => "[C",
            Self::Void => return Err(EasyJniError::ArrayOfVoidNotAllowed),
            Self::String => "[Ljava/lang/String;",
        };
        assert(class_name@ =~= self.array_descriptor());
        Ok(class_name)
    }

    /// The signature of the one-argument constructor of the kind's class.
    pub fn constructor_signature(&self) -> (signature: String)
        ensures
            signature@ == self.constructor_descriptor(),
    {
        proof {
            reveal_strlit("(");
            reveal_strlit(")V");
        }
        let mut signature = String::from_str("(");
        signature.append(self.java_signature());
        signature.append(")V");
        assert(signature@ =~= self.constructor_descriptor());
        signature
    }

    /// Allocates an instance of the kind's class without running a
    /// constructor. Whether that succeeds is the virtual machine's to say;
    /// a failure is the JNI layer's.
    pub fn to_jni_object<'local>(&self, env: &mut JNIEnv<'local>, _class: &JClass<'local>) -> (result:
        EasyJNIResult<JObject<'local>>)
        ensures
            result matches Err(failure) ==> failure is FromJniCrate,
    {
        propagate(alloc_object(env, self.java_class_name()))
    }
}

/// The UTF-16 unit of a character, as a Java `char` holds it. A character up
/// to U+FFFF is one unit, its own number; a character beyond takes two
/// units, and no Java `char` holds it.
pub open spec fn utf16_unit(character: char) -> Option<u16> {
    if character as u32 <= 0xFFFF {
        Some(character as u16)
    } else {
        None
    }
}

/// The UTF-16 unit of a character, if it is one unit.
pub fn unit_of(character: char) -> (unit: Option<u16>)
    ensures
        unit == utf16_unit(character),
{
    let code: u32 = character as u32;
    if code <= 0xFFFF {
        Some(code as u16)
    } else {
        None
    }
}

/// A native value of one of the ten kinds.
///
/// A `Byte` is unsigned here and signed in Java. A `Float` and a `Double`
/// hold the bits of the IEEE 754 number, so that two values are equal when
/// their bits are.
#[derive(Debug, PartialEq, Eq)]
pub enum JavaType {
    /// An eight-bit integer, 0 to 255 on this side.
    Byte(u8),
    /// A 16-bit signed integer.
    Short(i16),
    /// A 32-bit signed integer.
    Int(i32),
    /// A 64-bit signed integer.
    Long(i64),
    /// The bits of a single-precision number.
    Float(u32),
    /// The bits of a double-precision number.
    Double(u64),
    /// `true` or `false`.
    Boolean(bool),
    /// A single character.
    Char(char),
    /// No value.
    Void,
    /// A text.
    String(String),
}

impl Clone for JavaType {
    fn clone(&self) -> (value: Self)
        ensures
            value == *self,
    {
        match self {
            JavaType::Byte(byte) => JavaType::Byte(*byte),
            JavaType::Short(number) => JavaType::Short(*number),
            JavaType::Int(number) => JavaType::Int(*number),
            JavaType::Long(number) => JavaType::Long(*number),
            JavaType::Float(bits) => JavaType::Float(*bits),
            JavaType::Double(bits) => JavaType::Double(*bits),
            JavaType::Boolean(truth) => JavaType::Boolean(*truth),
            JavaType::Char(character) => JavaType::Char(*character),
            JavaType::Void => JavaType::Void,
            JavaType::String(text) => JavaType::String(text.clone()),
        }
    }
}

impl Default for JavaType {
    fn default() -> (value: Self)
        ensures
            value == JavaType::Void,
    {
        JavaType::Void
    }
}

impl JavaType {
    /// The kind of the value: that of its variant.
    pub open spec fn signature(self) -> JavaTypeSignature {
        match self {
            JavaType::Byte(_) => JavaTypeSignature::Byte,
            JavaType::Short(_) => JavaTypeSignature::Short,
            JavaType::Int(_) => JavaTypeSignature::Int,
            JavaType::Long(_) => JavaTypeSignature::Long,
            JavaType::Float(_) => JavaTypeSignature::Float,
            JavaType::Double(_) => JavaTypeSignature::Double,
            JavaType::Boolean(_) => JavaTypeSignature::Boolean,
            JavaType::Char(_) => JavaTypeSignature::Char,
            JavaType::Void => JavaTypeSignature::Void,
            JavaType::String(_) => JavaTypeSignature::String,
        }
    }

    /// What the value is on the Java side, where that takes no call into the
    /// virtual machine: a number and `void` as themselves, a byte above 127
    /// as 127, the greatest byte that Java has, a truth value as the flag
    /// 1 or 0. A text has to be made there, and a character is not carried
    /// over: neither has an answer here.
    pub open spec fn encoded<O>(self) -> Option<BoundaryValue<O>> {
        match self {
            JavaType::Byte(byte) => Some(
                BoundaryValue::Byte(
                    if byte > 127 {
                        127i8
                    } else {
                        byte as i8
                    },
                ),
            ),
            JavaType::Short(number) => Some(BoundaryValue::Short(number)),
            JavaType::Int(number) => Some(BoundaryValue::Int(number)),
            JavaType::Long(number) => Some(BoundaryValue::Long(number)),
            JavaType::Float(bits) => Some(BoundaryValue::Float(bits)),
            JavaType::Double(bits) => Some(BoundaryValue::Double(bits)),
            JavaType::Boolean(truth) => Some(
                BoundaryValue::Bool(
                    if truth {
                        1u8
                    } else {
                        0u8
                    },
                ),
            ),
            JavaType::Void => Some(BoundaryValue::Void),
            JavaType::Char(_) => None,
            JavaType::String(_) => None,
        }
    }

    /// Whether the value can be handed to a constructor or a field: every
    /// value but a character beyond U+FFFF, which no Java `char` holds.
    pub open spec fn boxable(self) -> bool {
        self matches JavaType::Char(character) ==> utf16_unit(character) is Some
    }

    /// What a constructor or a field is handed for the value, where that
    /// takes no call into the virtual machine: a character as its UTF-16
    /// unit, anything else as [`JavaType::encoded`] says.
    pub open spec fn argument<O>(self) -> Option<BoundaryValue<O>> {
        match self {
            JavaType::Char(character) => match utf16_unit(character) {
                Some(unit) => Some(BoundaryValue::Char(unit)),
                None => None,
            },
            _ => self.encoded(),
        }
    }

    /// Makes a Java string of the text.
    pub fn new_string<'local>(env: &mut JNIEnv<'local>, _class: &JClass<'local>, value: &str) -> (result:
        EasyJNIResult<JString<'local>>)
        ensures
            result matches Err(failure) ==> failure is FromJniCrate,
    {
        propagate(new_string(env, value))
    }

    /// Makes a Java string of the text and hands it out as a boundary value.
    pub fn new_jvalue_string<'local>(
        env: &mut JNIEnv<'local>,
        _class: &JClass<'local>,
        value: &str,
    ) -> (result: EasyJNIResult<BoundaryValue<JObject<'local>>>)
        ensures
            result matches Ok(made) ==> made is Object,
            result matches Err(failure) ==> failure is FromJniCrate,
    {
        let made = Self::new_string(env, _class, value);
        // What was made is a string's reference: it is handed out as a plain
        // one, and a failure as it came.
        Self::string_to_jvalue(made)
    }

    /// The value as it is passed to Java.
    ///
    /// A number, a truth value and `void` are converted here, as
    /// [`JavaType::encoded`] says, and the virtual machine is left alone. A
    /// character is not passed this way and is refused. A text becomes a
    /// fresh Java string on every call, if the virtual machine grants one.
    pub fn to_jni_jvalue<'local>(&self, env: &mut JNIEnv<'local>, java_class: &JClass<'local>) -> (result:
        EasyJNIResult<BoundaryValue<JObject<'local>>>)
        ensures
            *self is Char ==> result == Err::<BoundaryValue<JObject<'local>>, EasyJniError>(
                EasyJniError::UnsupportedJavaType,
            ),
            *self !is Char && *self !is String ==> result == Ok::<
                BoundaryValue<JObject<'local>>,
                EasyJniError,
            >(self.encoded::<JObject<'local>>().unwrap()),
            *self !is String ==> *final(env) == *old(env),
            *self is String ==> (result matches Ok(made) ==> made is Object) && (result matches Err(
                failure,
            ) ==> failure is FromJniCrate),
    {
        match self {
            Self::Byte(byte) => {
                if *byte > 127 {
                    Ok(BoundaryValue::Byte(127))
                } else {
                    Ok(BoundaryValue::Byte(*byte as i8))
                }
            },
            Self::Short(number) => Ok(BoundaryValue::Short(*number)),
            Self::Int(number) => Ok(BoundaryValue::Int(*number)),
            Self::Long(number) => Ok(BoundaryValue::Long(*number)),
            Self::Float(bits) => Ok(BoundaryValue::Float(*bits)),
            Self::Double(bits) => Ok(BoundaryValue::Double(*bits)),
            Self::Boolean(truth) => Ok(
                BoundaryValue::Bool(
                    if *truth {
                        1
                    } else {
                        0
                    },
                ),
            ),
            Self::Void => Ok(BoundaryValue::Void),
            Self::String(text) => Self::new_jvalue_string(env, java_class, text.as_str()),
            Self::Char(_) => Err(EasyJniError::UnsupportedJavaType),
        }
    }

    /// Whether the value can be handed to a constructor or a field.
    pub fn is_boxable(&self) -> (boxable: bool)
        ensures
            boxable == self.boxable(),
    {
        match self {
            Self::Char(character) => unit_of(*character).is_some(),
            _ => true,
        }
    }

    /// The value as a constructor or a field of its kind takes it.
    ///
    /// A character is handed over as its UTF-16 unit, and one beyond U+FFFF
    /// is refused. Anything else is handed over as
    /// [`JavaType::to_jni_jvalue`] passes it. Only a text reaches the virtual
    /// machine.
    pub fn to_jni_argument<'local>(&self, env: &mut JNIEnv<'local>, java_class: &JClass<'local>) -> (result:
        EasyJNIResult<BoundaryValue<JObject<'local>>>)
        ensures
            !self.boxable() ==> result == Err::<BoundaryValue<JObject<'local>>, EasyJniError>(
                EasyJniError::UnsupportedJavaType,
            ),
            self.boxable() && *self !is String ==> result == Ok::<
                BoundaryValue<JObject<'local>>,
                EasyJniError,
            >(self.argument::<JObject<'local>>().unwrap()),
            *self !is String ==> *final(env) == *old(env),
            *self is String ==> (result matches Ok(made) ==> made is Object) && (result matches Err(
                failure,
            ) ==> failure is FromJniCrate),
            result matches Ok(handed) ==> handed.kind_handed() == self.signature(),
    {
        match self {
            Self::Char(character) => match unit_of(*character) {
                Some(unit) => Ok(BoundaryValue::Char(unit)),
                None => Err(EasyJniError::UnsupportedJavaType),
            },
            _ => self.to_jni_jvalue(env, java_class),
        }
    }

    /// The value boxed: a fresh instance of its kind's class, made by the
    /// constructor that takes one value of the kind.
    ///
    /// A character beyond U+FFFF is refused before the virtual machine is
    /// touched: no Java `char` holds it. For every other value the virtual
    /// machine decides, and a failure is the JNI layer's.
    pub fn to_jni_object<'local>(&self, env: &mut JNIEnv<'local>, java_class: &JClass<'local>) -> (result:
        EasyJNIResult<JObject<'local>>)
        ensures
            !self.boxable() ==> result == Err::<JObject<'local>, EasyJniError>(
                EasyJniError::UnsupportedJavaType,
            ) && *final(env) == *old(env),
            self.boxable() ==> (result matches Err(failure) ==> failure is FromJniCrate),
    {
        let argument = match self.to_jni_argument(env, java_class) {
            Ok(argument) => argument,
            Err(failure) => return Err(failure),
        };
        let kind = self.to_java_type_signature();
        let constructor = kind.constructor_signature();
        proof {
            kind.lemma_descriptor_is_no_method();
        }
        propagate(new_object(env, kind.java_class_name(), constructor.as_str(), &argument))
    }

    /// Looks up the class of the value's kind.
    pub fn java_class<'local>(&self, env: &mut JNIEnv<'local>, _class: &JClass<'local>) -> (result:
        EasyJNIResult<JClass<'local>>)
        ensures
            result matches Err(failure) ==> failure is FromJniCrate,
    {
        propagate(find_class(env, self.to_java_type_signature().java_class_name()))
    }

    /// The field descriptor of the value's kind.
    pub fn java_signature(&self) -> (descriptor: &'static str)
        ensures
            descriptor@ == self.signature().descriptor(),
    {
        self.to_java_type_signature().java_signature()
    }

    /// The binary name of the class of the value's kind.
    pub fn java_class_name(&self) -> (name: String)
        ensures
            name@ == self.signature().class_name(),
    {
        self.to_java_type_signature().java_class_name().to_owned()
    }

    /// The kind of the value.
    pub fn to_java_type_signature(&self) -> (kind: JavaTypeSignature)
        ensures
            kind == self.signature(),
    {
        match self {
            JavaType::Byte(_) => JavaTypeSignature::Byte,
            JavaType::Short(_) => JavaTypeSignature::Short,
            JavaType::Int(_) => JavaTypeSignature::Int,
            JavaType::Long(_) => JavaTypeSignature::Long,
            JavaType::Float(_) => JavaTypeSignature::Float,
            JavaType::Double(_) => JavaTypeSignature::Double,
            JavaType::Boolean(_) => JavaTypeSignature::Boolean,
            JavaType::Char(_) => JavaTypeSignature::Char,
            JavaType::Void => JavaTypeSignature::Void,
            JavaType::String(_) => JavaTypeSignature::String,
        }
    }

    /// What follows from making a Java string: its reference as a boundary
    /// value if it was made, and the failure unchanged if it was not.
    pub fn string_to_jvalue<'local>(made: EasyJNIResult<JString<'local>>) -> (result: EasyJNIResult<
        BoundaryValue<JObject<'local>>,
    >)
        ensures
            made is Ok ==> (result matches Ok(value) && value is Object),
            made matches Err(failure) ==> result == Err::<
                BoundaryValue<JObject<'local>>,
                EasyJniError,
            >(failure),
    {
        match made {
            Ok(text) => Ok(BoundaryValue::Object(string_into_object(text))),
            Err(failure) => Err(failure),
        }
    }
}

} // verus!
