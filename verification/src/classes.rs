//! Java objects and object arrays built from native values.

use crate::boundary::{
    alloc_object, find_class, is_element_class, new_object_array, set_field,
    set_object_array_element,
};
use crate::errors::{propagate, EasyJNIResult, EasyJniError};
use crate::java_types::{JavaType, JavaTypeSignature};
use jni::errors::Error;
use jni::objects::{JClass, JObject, JObjectArray};
use jni::JNIEnv;
use vstd::prelude::*;

verus! {

/// What a [`JavaArray`] describes.
pub struct ArraySpec {
    /// The number of slots of the Java array.
    pub size: nat,
    /// The kind of every element.
    pub java_type: JavaTypeSignature,
    /// The elements to store, the first in slot 0.
    pub values: Seq<JavaType>,
}

impl ArraySpec {
    /// Whether every value is of the declared kind.
    pub open spec fn of_one_kind(self) -> bool {
        forall|i: int|
            0 <= i < self.values.len() ==> (#[trigger] self.values[i]).signature()
                == self.java_type
    }

    /// Whether every value can be boxed: none is a character beyond U+FFFF.
    pub open spec fn boxable(self) -> bool {
        forall|i: int| 0 <= i < self.values.len() ==> (#[trigger] self.values[i]).boxable()
    }
}

/// The description of a Java array of objects: how many slots it has, of
/// which kind its elements are, and the values to store in it.
///
/// Every value in it is of the declared kind, and the number of slots is one
/// that a Java array can have, at most `i32::MAX`.
#[derive(Debug, PartialEq)]
pub struct JavaArray {
    size: usize,
    java_type: JavaTypeSignature,
    values: Vec<JavaType>,
}

impl View for JavaArray {
    type V = ArraySpec;

    closed spec fn view(&self) -> ArraySpec {
        ArraySpec { size: self.size as nat, java_type: self.java_type, values: self.values@ }
    }
}

impl Default for JavaArray {
    /// No slots, no values, and `void` for the kind.
    fn default() -> (array: Self)
        ensures
            array@ == (ArraySpec {
                size: 0,
                java_type: JavaTypeSignature::Void,
                values: Seq::<JavaType>::empty(),
            }),
    {
        JavaArray { size: 0, java_type: JavaTypeSignature::Void, values: Vec::new() }
    }
}

impl Clone for JavaArray {
    fn clone(&self) -> (array: Self)
        ensures
            array@ == self@,
    {
        proof {
            use_type_invariant(self);
        }
        let mut values: Vec<JavaType> = Vec::new();
        let mut position: usize = 0;
        while position < self.values.len()
            invariant
                position <= self.values.len(),
                values@ == self.values@.subrange(0, position as int),
            decreases self.values.len() - position,
        {
            values.push(self.values[position].clone());
            assert(values@ =~= self.values@.subrange(0, position + 1));
            position = position + 1;
        }
        assert(values@ =~= self.values@);
        JavaArray { size: self.size, java_type: self.java_type, values }
    }
}

/// The index of the slot for a position among the values. A position beyond
/// `i32::MAX`, where no Java array has a slot, is handed on as `i32::MAX`,
/// where no Java array has one either.
pub open spec fn slot_index(position: nat) -> i32 {
    if position > i32::MAX {
        i32::MAX
    } else {
        position as i32
    }
}

fn index_of_slot(position: usize) -> (index: i32)
    ensures
        index == slot_index(position as nat),
{
    if position > i32::MAX as usize {
        i32::MAX
    } else {
        position as i32
    }
}

impl JavaArray {
    #[verifier::type_invariant]
    spec fn well_formed(self) -> bool {
        &&& self.size <= i32::MAX
        &&& forall|i: int|
            0 <= i < self.values@.len() ==> (#[trigger] self.values@[i]).signature()
                == self.java_type
    }

    /// An array of the kind, with no slots and no values yet.
    pub fn new(java_type: JavaTypeSignature) -> (array: Self)
        ensures
            array@ == (ArraySpec { size: 0, java_type, values: Seq::<JavaType>::empty() }),
    {
        JavaArray { size: 0, java_type, values: Vec::new() }
    }

    /// The same array with `size` slots.
    pub fn resize(self, size: usize) -> (array: Self)
        requires
            size <= i32::MAX,
        ensures
            array@ == (ArraySpec { size: size as nat, ..self@ }),
    {
        proof {
            use_type_invariant(&self);
        }
        JavaArray { size, java_type: self.java_type, values: self.values }
    }

    /// The same array with one more value, behind those it has. A value of
    /// another kind than the array's is refused, and no other.
    pub fn add_value(self, value: JavaType) -> (result: EasyJNIResult<Self>)
        ensures
            value.signature() != self@.java_type ==> result == Err::<Self, EasyJniError>(
                EasyJniError::JavaTypeMismatch,
            ),
            value.signature() == self@.java_type ==> (result matches Ok(array) && array@ == (
            ArraySpec { values: self@.values.push(value), ..self@ })),
    {
        proof {
            use_type_invariant(&self);
        }
        if value.to_java_type_signature() != self.java_type {
            return Err(EasyJniError::JavaTypeMismatch);
        }
        let mut values = self.values;
        values.push(value);
        Ok(JavaArray { size: self.size, java_type: self.java_type, values })
    }

    /// The values, in the order in which they were added. Each is of the
    /// array's kind.
    pub fn values(&self) -> (values: &Vec<JavaType>)
        ensures
            values@ == self@.values,
            self@.of_one_kind(),
    {
        proof {
            use_type_invariant(self);
        }
        &self.values
    }

    /// Allocates a Java array of `size` null references, its elements of the
    /// class of `java_type`.
    ///
    /// An array of `void` is refused before the virtual machine is touched.
    /// For any other kind the virtual machine decides, and a failure is the
    /// JNI layer's. No size is special: an array of no slots is an array.
    pub fn create<'local>(
        env: &mut JNIEnv<'local>,
        _class: &JClass<'local>,
        java_type: JavaTypeSignature,
        size: usize,
    ) -> (result: EasyJNIResult<JObjectArray<'local>>)
        requires
            size <= i32::MAX,
        ensures
            java_type == JavaTypeSignature::Void ==> result == Err::<
                JObjectArray<'local>,
                EasyJniError,
            >(EasyJniError::ArrayOfVoidNotAllowed) && *final(env) == *old(env),
            java_type != JavaTypeSignature::Void ==> (result matches Err(failure)
                ==> failure is FromJniCrate),
    {
        if java_type == JavaTypeSignature::Void {
            return Err(EasyJniError::ArrayOfVoidNotAllowed);
        }
        let class_name = java_type.java_class_name();
        assert(is_element_class(class_name@));
        propagate(new_object_array(env, size as i32, class_name))
    }

    /// Allocates the Java array and stores the values in it: each value is
    /// boxed, in the order of the values, and stored at its own position.
    ///
    /// Three arrays are refused before the virtual machine is touched: an
    /// array of `void`; one that holds a value of another kind than its own,
    /// which [`JavaArray::add_value`] lets no array come to hold; and one
    /// that holds a character beyond U+FFFF, which cannot be boxed. For
    /// every other array the virtual machine decides, and a failure is the
    /// JNI layer's; the first one ends the work.
    pub fn build<'local>(&self, env: &mut JNIEnv<'local>, java_class: &JClass<'local>) -> (result:
        EasyJNIResult<JObjectArray<'local>>)
        ensures
            self@.java_type == JavaTypeSignature::Void ==> result == Err::<
                JObjectArray<'local>,
                EasyJniError,
            >(EasyJniError::ArrayOfVoidNotAllowed),
            self@.java_type != JavaTypeSignature::Void && !self@.of_one_kind() ==> result == Err::<
                JObjectArray<'local>,
                EasyJniError,
            >(EasyJniError::JavaTypeMismatch),
            self@.java_type != JavaTypeSignature::Void && self@.of_one_kind() && !self@.boxable()
                ==> result == Err::<JObjectArray<'local>, EasyJniError>(
                EasyJniError::UnsupportedJavaType,
            ),
            self@.java_type == JavaTypeSignature::Void || !self@.of_one_kind() || !self@.boxable()
                ==> *final(env) == *old(env),
            self@.java_type != JavaTypeSignature::Void && self@.of_one_kind() && self@.boxable() ==> (
            result matches Err(failure) ==> failure is FromJniCrate),
    {
        proof {
            use_type_invariant(self);
        }
        if self.java_type == JavaTypeSignature::Void {
            return Err(EasyJniError::ArrayOfVoidNotAllowed);
        }
        if !self.holds_one_kind() {
            return Err(EasyJniError::JavaTypeMismatch);
        }
        if !self.holds_boxable_values() {
            return Err(EasyJniError::UnsupportedJavaType);
        }
        let array = Self::create(env, java_class, self.java_type, self.size)?;
        let mut position: usize = 0;
        while position < self.values.len()
            invariant
                position <= self.values.len(),
                self@.java_type != JavaTypeSignature::Void,
                self@.of_one_kind(),
                self@.boxable(),
            decreases self.values.len() - position,
        {
            let object = self.values[position].to_jni_object(env, java_class)?;
            let stored = set_object_array_element(env, &array, index_of_slot(position), &object);
            propagate(stored)?;
            position = position + 1;
        }
        Ok(array)
    }

    /// Whether every value is of the array's kind.
    fn holds_one_kind(&self) -> (holds: bool)
        ensures
            holds == self@.of_one_kind(),
    {
        let mut position: usize = 0;
        while position < self.values.len()
            invariant
                position <= self.values.len(),
                forall|i: int|
                    0 <= i < position ==> (#[trigger] self.values@[i]).signature()
                        == self.java_type,
            decreases self.values.len() - position,
        {
            if self.values[position].to_java_type_signature() != self.java_type {
                return false;
            }
            position = position + 1;
        }
        true
    }

    /// Whether every value can be boxed.
    fn holds_boxable_values(&self) -> (holds: bool)
        ensures
            holds == self@.boxable(),
    {
        let mut position: usize = 0;
        while position < self.values.len()
            invariant
                position <= self.values.len(),
                forall|i: int| 0 <= i < position ==> (#[trigger] self.values@[i]).boxable(),
            decreases self.values.len() - position,
        {
            if !self.values[position].is_boxable() {
                assert(!self@.values[position as int].boxable());
                return false;
            }
            position = position + 1;
        }
        true
    }
}

/// A Java class, known by its binary name.
#[derive(Debug, PartialEq, PartialOrd)]
pub struct Class<'local> {
    name: &'local str,
}

impl<'local> View for Class<'local> {
    type V = Seq<char>;

    /// The binary name of the class.
    closed spec fn view(&self) -> Seq<char> {
        self.name@
    }
}

impl<'local> Clone for Class<'local> {
    fn clone(&self) -> (class: Self)
        ensures
            class == *self,
    {
        Class { name: self.name }
    }
}

impl<'local> Class<'local> {
    /// The class of that binary name.
    pub fn new(name: &'local str) -> (class: Class<'local>)
        ensures
            class@ == name@,
    {
        Class { name }
    }

    /// The binary name of the class.
    pub fn name(&self) -> (name: &'local str)
        ensures
            name@ == self@,
    {
        self.name
    }

    /// Looks the class up and allocates an instance of it. No constructor
    /// runs: the fields of the instance hold their defaults. The virtual
    /// machine decides, and a failure is the JNI layer's.
    pub fn create(&self, env: &mut JNIEnv<'local>, _class: &JClass<'local>) -> (result:
        EasyJNIResult<JObject<'local>>)
        ensures
            result matches Err(failure) ==> failure is FromJniCrate,
    {
        propagate(alloc_object(env, self.name))
    }

    /// Looks the class up, allocates an instance of it as [`Class::create`]
    /// does, and assigns the field `name` of the instance from `value`.
    ///
    /// The field is assigned under the field descriptor of the value's kind,
    /// with the value as [`JavaType::to_jni_argument`] hands it over. A
    /// character beyond U+FFFF is refused before the virtual machine is
    /// touched: no Java `char` holds it. For every other value the virtual
    /// machine decides, and a failure is the JNI layer's: that of the lookup
    /// or the allocation first, then that of the assignment. An instance
    /// whose field could not be assigned is not handed out.
    pub fn create_and_build(
        &self,
        env: &mut JNIEnv<'local>,
        java_class: &JClass<'local>,
        name: &str,
        value: &JavaType,
    ) -> (result: EasyJNIResult<JObject<'local>>)
        ensures
            !value.boxable() ==> result == Err::<JObject<'local>, EasyJniError>(
                EasyJniError::UnsupportedJavaType,
            ) && *final(env) == *old(env),
            value.boxable() ==> (result matches Err(failure) ==> failure is FromJniCrate),
    {
        if !value.is_boxable() {
            return Err(EasyJniError::UnsupportedJavaType);
        }
        let object = propagate(alloc_object(env, self.name))?;
        let field_value = value.to_jni_argument(env, java_class)?;
        proof {
            value.signature().lemma_descriptor_is_no_method();
        }
        let outcome = set_field(env, &object, name, value.java_signature(), &field_value);
        Self::assigned(object, outcome)
    }

    /// What follows from assigning a field of a fresh instance: the instance
    /// if the field was assigned, and the JNI layer's failure, without the
    /// instance, if it was not.
    pub fn assigned(object: JObject<'local>, outcome: Result<(), Error>) -> (result: EasyJNIResult<
        JObject<'local>,
    >)
        ensures
            outcome is Ok ==> result == Ok::<JObject<'local>, EasyJniError>(object),
            outcome matches Err(failure) ==> (result matches Err(surfaced) && surfaced.surfaces(
                failure,
            )),
    {
        match outcome {
            Ok(()) => Ok(object),
            Err(failure) => Err(EasyJniError::from(failure)),
        }
    }

    /// Looks the class up. The virtual machine decides, and a failure is the
    /// JNI layer's.
    pub fn find(self, env: &mut JNIEnv<'local>, _class: JClass<'local>) -> (result: EasyJNIResult<
        JClass<'local>,
    >)
        ensures
            result matches Err(failure) ==> failure is FromJniCrate,
    {
        propagate(find_class(env, self.name))
    }
}

} // verus!
