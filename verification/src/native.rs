//! Handles of managed objects the game hands out: strings, arrays, lists and the
//! reflection types used to look fields up.
use vstd::prelude::*;
use vstd::string::*;
use crate::il2cpp::Il2CppObject;

verus! {

/// Handle of a managed string.
#[derive(Debug, Clone, Copy, PartialEq, Eq, Structural)]
pub struct Il2CppString(pub usize);

impl Il2CppString {
    /// Whether this is the null reference.
    pub fn is_null(&self) -> (r: bool)
        ensures
            r == (self.0 == 0),
    {
        self.0 == 0
    }

    /// This string seen as a managed object.
    pub fn as_object(&self) -> (r: Il2CppObject)
        ensures
            r.0 == self.0,
    {
        Il2CppObject(self.0)
    }
}

/// Handle of a managed array.
#[derive(Debug, Clone, Copy, PartialEq, Eq, Structural)]
pub struct Il2CppArray(pub usize);

impl Il2CppArray {
    /// The address of the first element, 32 bytes past the array header.
    pub fn first_item_ptr(&self) -> (r: usize)
        requires
            self.0 + 32 <= usize::MAX,
        ensures
            r == self.0 + 32,
    {
        self.0 + 32
    }

    /// Whether the array is empty, given the length the runtime records for it.
    pub fn is_empty(&self, len: usize) -> (r: bool)
        ensures
            r == (len == 0),
    {
        len == 0
    }
}

/// Handle of a managed generic list.
#[derive(Debug, Clone, Copy, PartialEq, Eq, Structural)]
pub struct List(pub usize);

/// Handle of a reflection type object.
#[derive(Debug, Clone, Copy, PartialEq, Eq, Structural)]
pub struct RuntimeType(pub usize);

/// Handle of a reflection field object.
#[derive(Debug, Clone, Copy, PartialEq, Eq, Structural)]
pub struct RuntimeField(pub usize);

/// Errors of lookups in the managed runtime.
#[derive(Debug, PartialEq, Eq)]
pub enum Il2CppError {
    /// The runtime call failed, with the runtime's message.
    Runtime(String),
    /// Neither the type nor its base type has a field of that name.
    NoSuchField(String),
}

/// The next step of a field lookup by name.
#[derive(Debug, Clone, Copy, PartialEq, Eq, Structural)]
pub enum FieldLookup {
    /// The type itself has the field.
    Found(RuntimeField),
    /// The field has to be looked up on the base type.
    AskBaseType,
}

impl RuntimeType {
    /// Whether this is the null reference.
    pub fn is_null(&self) -> (r: bool)
        ensures
            r == (self.0 == 0),
    {
        self.0 == 0
    }

    /// This type seen as a managed object.
    pub fn as_object(&self) -> (r: Il2CppObject)
        ensures
            r.0 == self.0,
    {
        Il2CppObject(self.0)
    }

    /// First step of looking a field up by name, given the runtime's answer for this
    /// type itself: a non-null field is found; a null field or a failed call sends the
    /// lookup on to the base type.
    pub fn get_field(&self, own_answer: &Result<RuntimeField, Il2CppError>) -> (r: FieldLookup)
        ensures
            r == (match own_answer {
                Ok(f) => if f.0 != 0 {
                    FieldLookup::Found(*f)
                } else {
                    FieldLookup::AskBaseType
                },
                Err(_) => FieldLookup::AskBaseType,
            }),
    {
        match own_answer {
            Ok(f) => {
                if f.0 != 0 {
                    FieldLookup::Found(*f)
                } else {
                    FieldLookup::AskBaseType
                }
            },
            Err(_) => FieldLookup::AskBaseType,
        }
    }

    /// Second step of looking the field `name` up: the runtime's answer for the base
    /// type. A non-null field is the result, a failed call is passed on, and a null
    /// field means that there is no such field.
    pub fn get_field_from_base_type(&self, name: &str, base_answer: Result<RuntimeField, Il2CppError>) -> (r: Result<RuntimeField, Il2CppError>)
        ensures
            base_answer matches Ok(f) && f.0 != 0 ==> r == base_answer,
            base_answer matches Ok(f) && f.0 == 0 ==> (r matches Err(Il2CppError::NoSuchField(n)) && n@ == name@),
            base_answer is Err ==> r == base_answer,
    {
        match base_answer {
            Ok(f) => {
                if f.0 != 0 {
                    Ok(f)
                } else {
                    Err(Il2CppError::NoSuchField(String::from_str(name)))
                }
            },
            Err(e) => Err(e),
        }
    }
}

} // verus!
