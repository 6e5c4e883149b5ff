//! Handles of il2cpp runtime objects and the lookups done over runtime metadata.
//!
//! A handle is the address of an object inside the game process. Reading the
//! runtime (names, parameter counts, field values) is done by the caller; the
//! functions here decide over what was read.
use vstd::prelude::*;
use vstd::string::*;

verus! {

/// String equality of two string slices.
pub fn str_equal(a: &str, b: &str) -> (r: bool)
    ensures
        r == (a@ == b@),
{
    let x = String::from_str(a);
    let y = String::from_str(b);
    x == y
}

/// Handle of the il2cpp application domain.
#[derive(Debug, Clone, Copy, PartialEq, Eq, Structural)]
pub struct Il2CppDomain(pub usize);

/// Handle of a loaded image (a module of managed code).
#[derive(Debug, Clone, Copy, PartialEq, Eq, Structural)]
pub struct Il2CppImage(pub usize);

/// Handle of a loaded assembly.
#[derive(Debug, Clone, Copy, PartialEq, Eq, Structural)]
pub struct Il2CppAssembly(pub usize);

/// Handle of a managed class.
#[derive(Debug, Clone, Copy, PartialEq, Eq, Structural)]
pub struct Il2CppClass(pub usize);

/// Handle of a managed type.
#[derive(Debug, Clone, Copy, PartialEq, Eq, Structural)]
pub struct Il2CppType(pub usize);

/// Handle of a managed method.
#[derive(Debug, Clone, Copy, PartialEq, Eq, Structural)]
pub struct Il2CppMethod(pub usize);

/// Handle of a managed field.
#[derive(Debug, Clone, Copy, PartialEq, Eq, Structural)]
pub struct Il2CppField(pub usize);

/// Handle of a managed object; the address 0 is the null reference.
#[derive(Debug, Clone, Copy, PartialEq, Eq, Structural)]
pub struct Il2CppObject(pub usize);

impl Il2CppObject {
    /// The null object reference.
    pub fn null() -> (r: Il2CppObject)
        ensures
            r.0 == 0,
    {
        Il2CppObject(0)
    }

    /// Whether this is the null reference.
    pub fn is_null(&self) -> (r: bool)
        ensures
            r == (self.0 == 0),
    {
        self.0 == 0
    }
}

impl Il2CppClass {
    /// The type that describes values of this class, stored 128 bytes into the class.
    pub fn byval_arg(&self) -> (r: Il2CppType)
        requires
            self.0 + 128 <= usize::MAX,
        ensures
            r.0 == self.0 + 128,
    {
        Il2CppType(self.0 + 128)
    }
}


/// What the runtime reports about one method of a class: its handle, its name and
/// the runtime names of its parameter types, in parameter order.
pub struct MethodInfo {
    pub method: Il2CppMethod,
    pub name: String,
    pub param_type_names: Vec<String>,
}

/// The short C#-style name of a runtime type name ("System.Int32" is "int");
/// other names are kept as they are.
pub open spec fn formatted_type_name(name: Seq<char>) -> Seq<char> {
    if name == "System.Int32"@ {
        "int"@
    } else if name == "System.UInt32"@ {
        "uint"@
    } else if name == "System.Int16"@ {
        "short"@
    } else if name == "System.UInt16"@ {
        "ushort"@
    } else if name == "System.Int64"@ {
        "long"@
    } else if name == "System.UInt64"@ {
        "ulong"@
    } else if name == "System.Byte"@ {
        "byte"@
    } else if name == "System.SByte"@ {
        "sbyte"@
    } else if name == "System.Boolean"@ {
        "bool"@
    } else if name == "System.Single"@ {
        "float"@
    } else if name == "System.Double"@ {
        "double"@
    } else if name == "System.String"@ {
        "string"@
    } else if name == "System.Char"@ {
        "char"@
    } else if name == "System.Object"@ {
        "object"@
    } else if name == "System.Void"@ {
        "void"@
    } else if name == "System.Decimal"@ {
        "decimal"@
    } else if name == "System.DateTime"@ {
        "DateTime"@
    } else {
        name
    }
}

/// A runtime type name outside the seventeen C# aliases is kept as it is: its
/// formatted name is the name itself.
pub proof fn unaliased_type_names_are_kept(name: Seq<char>)
    requires
        name != "System.Int32"@,
        name != "System.UInt32"@,
        name != "System.Int16"@,
        name != "System.UInt16"@,
        name != "System.Int64"@,
        name != "System.UInt64"@,
        name != "System.Byte"@,
        name != "System.SByte"@,
        name != "System.Boolean"@,
        name != "System.Single"@,
        name != "System.Double"@,
        name != "System.String"@,
        name != "System.Char"@,
        name != "System.Object"@,
        name != "System.Void"@,
        name != "System.Decimal"@,
        name != "System.DateTime"@,
    ensures
        formatted_type_name(name) == name,
{
}

/// The seventeen runtime type names that have C# aliases, each with its alias.
pub proof fn aliased_type_names()
    ensures
        formatted_type_name("System.Int32"@) == "int"@,
        formatted_type_name("System.UInt32"@) == "uint"@,
        formatted_type_name("System.Int16"@) == "short"@,
        formatted_type_name("System.UInt16"@) == "ushort"@,
        formatted_type_name("System.Int64"@) == "long"@,
        formatted_type_name("System.UInt64"@) == "ulong"@,
        formatted_type_name("System.Byte"@) == "byte"@,
        formatted_type_name("System.SByte"@) == "sbyte"@,
        formatted_type_name("System.Boolean"@) == "bool"@,
        formatted_type_name("System.Single"@) == "float"@,
        formatted_type_name("System.Double"@) == "double"@,
        formatted_type_name("System.String"@) == "string"@,
        formatted_type_name("System.Char"@) == "char"@,
        formatted_type_name("System.Object"@) == "object"@,
        formatted_type_name("System.Void"@) == "void"@,
        formatted_type_name("System.Decimal"@) == "decimal"@,
        formatted_type_name("System.DateTime"@) == "DateTime"@,
{
    reveal_strlit("System.Int32");
    reveal_strlit("System.UInt32");
    reveal_strlit("System.Int16");
    reveal_strlit("System.UInt16");
    reveal_strlit("System.Int64");
    reveal_strlit("System.UInt64");
    reveal_strlit("System.Byte");
    reveal_strlit("System.SByte");
    reveal_strlit("System.Boolean");
    reveal_strlit("System.Single");
    reveal_strlit("System.Double");
    reveal_strlit("System.String");
    reveal_strlit("System.Char");
    reveal_strlit("System.Object");
    reveal_strlit("System.Void");
    reveal_strlit("System.Decimal");
    reveal_strlit("System.DateTime");
    // No two of the names agree in length, eighth character and second-to-last character.
    assert("System.Int32"@.len() == 12 && "System.Int32"@[7] == 'I' && "System.Int32"@[10] == '3');
    assert("System.UInt32"@.len() == 13 && "System.UInt32"@[7] == 'U' && "System.UInt32"@[11] == '3');
    assert("System.Int16"@.len() == 12 && "System.Int16"@[7] == 'I' && "System.Int16"@[10] == '1');
    assert("System.UInt16"@.len() == 13 && "System.UInt16"@[7] == 'U' && "System.UInt16"@[11] == '1');
    assert("System.Int64"@.len() == 12 && "System.Int64"@[7] == 'I' && "System.Int64"@[10] == '6');
    assert("System.UInt64"@.len() == 13 && "System.UInt64"@[7] == 'U' && "System.UInt64"@[11] == '6');
    assert("System.Byte"@.len() == 11 && "System.Byte"@[7] == 'B' && "System.Byte"@[9] == 't');
    assert("System.SByte"@.len() == 12 && "System.SByte"@[7] == 'S' && "System.SByte"@[10] == 't');
    assert("System.Boolean"@.len() == 14 && "System.Boolean"@[7] == 'B' && "System.Boolean"@[12] == 'a');
    assert("System.Single"@.len() == 13 && "System.Single"@[7] == 'S' && "System.Single"@[11] == 'l');
    assert("System.Double"@.len() == 13 && "System.Double"@[7] == 'D' && "System.Double"@[11] == 'l');
    assert("System.String"@.len() == 13 && "System.String"@[7] == 'S' && "System.String"@[11] == 'n');
    assert("System.Char"@.len() == 11 && "System.Char"@[7] == 'C' && "System.Char"@[9] == 'a');
    assert("System.Object"@.len() == 13 && "System.Object"@[7] == 'O' && "System.Object"@[11] == 'c');
    assert("System.Void"@.len() == 11 && "System.Void"@[7] == 'V' && "System.Void"@[9] == 'i');
    assert("System.Decimal"@.len() == 14 && "System.Decimal"@[7] == 'D' && "System.Decimal"@[12] == 'a');
    assert("System.DateTime"@.len() == 15 && "System.DateTime"@[7] == 'D' && "System.DateTime"@[13] == 'm');
}

/// The views of a slice of string slices.
pub open spec fn str_views(s: Seq<&str>) -> Seq<Seq<char>> {
    s.map_values(|x: &str| x@)
}

/// A method matches a name and a list of formatted argument types when its name is
/// that name and its parameter types, formatted, are those types.
pub open spec fn method_matches(m: MethodInfo, name: Seq<char>, arg_types: Seq<Seq<char>>) -> bool {
    &&& m.name@ == name
    &&& m.param_type_names@.len() == arg_types.len()
    &&& forall|i: int|
        0 <= i < arg_types.len() ==> formatted_type_name(#[trigger] m.param_type_names@[i]@)
            == arg_types[i]
}

/// The parameter list "t1,t2,...,tn" of formatted type names.
pub open spec fn joined_type_names(names: Seq<Seq<char>>) -> Seq<char>
    decreases names.len(),
{
    if names.len() == 0 {
        Seq::empty()
    } else if names.len() == 1 {
        formatted_type_name(names[0])
    } else {
        joined_type_names(names.drop_last()) + ","@ + formatted_type_name(names.last())
    }
}

/// The formatted form of a runtime type name.
pub fn format_type_name(name: &str) -> (r: String)
    ensures
        r@ == formatted_type_name(name@),
{
    if str_equal(name, "System.Int32") {
        String::from_str("int")
    } else if str_equal(name, "System.UInt32") {
        String::from_str("uint")
    } else if str_equal(name, "System.Int16") {
        String::from_str("short")
    } else if str_equal(name, "System.UInt16") {
        String::from_str("ushort")
    } else if str_equal(name, "System.Int64") {
        String::from_str("long")
    } else if str_equal(name, "System.UInt64") {
        String::from_str("ulong")
    } else if str_equal(name, "System.Byte") {
        String::from_str("byte")
    } else if str_equal(name, "System.SByte") {
        String::from_str("sbyte")
    } else if str_equal(name, "System.Boolean") {
        String::from_str("bool")
    } else if str_equal(name, "System.Single") {
        String::from_str("float")
    } else if str_equal(name, "System.Double") {
        String::from_str("double")
    } else if str_equal(name, "System.String") {
        String::from_str("string")
    } else if str_equal(name, "System.Char") {
        String::from_str("char")
    } else if str_equal(name, "System.Object") {
        String::from_str("object")
    } else if str_equal(name, "System.Void") {
        String::from_str("void")
    } else if str_equal(name, "System.Decimal") {
        String::from_str("decimal")
    } else if str_equal(name, "System.DateTime") {
        String::from_str("DateTime")
    } else {
        String::from_str(name)
    }
}

impl Il2CppType {
    /// The formatted name of this type, given the name the runtime reports for it.
    pub fn formatted_name(&self, name: &str) -> (r: String)
        ensures
            r@ == formatted_type_name(name@),
    {
        format_type_name(name)
    }
}

impl Il2CppMethod {
    /// The formatted type of parameter `i`, given the runtime name of that parameter's type.
    pub fn arg_type_formatted(&self, i: u32, param_type_name: &str) -> (r: String)
        ensures
            r@ == formatted_type_name(param_type_name@),
    {
        format_type_name(param_type_name)
    }

    /// The signature text "name(t1,...,tn)" of this method, given its name and the
    /// runtime names of its parameter types.
    pub fn format_params(&self, name: &str, param_type_names: &[String]) -> (r: String)
        ensures
            r@ == name@ + "("@ + joined_type_names(param_type_names@.map_values(|s: String| s@))
                + ")"@,
    {
        let ghost names = param_type_names@.map_values(|s: String| s@);
        let mut out = String::from_str(name);
        out.append("(");
        let ghost prefix = out@;
        let count = param_type_names.len();
        let mut i: usize = 0;
        while i < count
            invariant
                count == param_type_names.len(),
                names == param_type_names@.map_values(|s: String| s@),
                i <= count,
                prefix == name@ + "("@,
                out@ == prefix + joined_type_names(names.take(i as int)),
            decreases count - i,
        {
            let formatted = format_type_name(param_type_names[i].as_str());
            if i > 0 {
                out.append(",");
            }
            out.append(formatted.as_str());
            proof {
                assert(names.take(i + 1).drop_last() =~= names.take(i as int));
                assert(names.take(i + 1).last() == names[i as int]);
                if i == 0 {
                    assert(names.take(1).len() == 1);
                    assert(joined_type_names(names.take(0)) =~= Seq::<char>::empty());
                }
            }
            i = i + 1;
        }
        out.append(")");
        proof {
            assert(names.take(count as int) =~= names);
        }
        out
    }

    /// The relative virtual address of this method: its entry address less the base
    /// address of the game module, or 0 when the method has no entry address.
    pub fn rva(&self, va: usize, module_base: usize) -> (r: usize)
        requires
            va == 0 || module_base <= va,
        ensures
            r == (if va == 0 {
                0
            } else {
                (va - module_base) as usize
            }),
    {
        if va == 0 {
            return 0;
        }
        va - module_base
    }
}

impl Il2CppClass {
    /// The methods of this class, given the successive answers of the runtime's
    /// method iterator: every answer up to, not including, the first null handle.
    pub fn methods(&self, answers: &[Il2CppMethod]) -> (r: Vec<Il2CppMethod>)
        ensures
            r@.len() <= answers@.len(),
            r@ == answers@.subrange(0, r@.len() as int),
            forall|i: int| 0 <= i < r@.len() ==> (#[trigger] r@[i]).0 != 0,
            r@.len() < answers@.len() ==> answers@[r@.len() as int].0 == 0,
    {
        let mut result: Vec<Il2CppMethod> = Vec::new();
        let mut i: usize = 0;
        while i < answers.len() && answers[i].0 != 0
            invariant
                i <= answers@.len(),
                result@ == answers@.subrange(0, i as int),
                forall|j: int| 0 <= j < i ==> (#[trigger] answers@[j]).0 != 0,
            decreases answers@.len() - i,
        {
            let method = answers[i];
            result.push(method);
            i = i + 1;
            assert(result@ =~= answers@.subrange(0, i as int));
        }
        result
    }

    /// The first method among `methods` whose name is `name`.
    pub fn find_method_by_name(&self, methods: &[MethodInfo], name: &str) -> (r: Option<Il2CppMethod>)
        ensures
            r is None <==> forall|k: int| 0 <= k < methods@.len() ==> (#[trigger] methods@[k]).name@ != name@,
            r matches Some(m) ==> exists|k: int|
                0 <= k < methods@.len() && (#[trigger] methods@[k]).name@ == name@
                    && methods@[k].method == m
                    && forall|j: int| 0 <= j < k ==> methods@[j].name@ != name@,
    {
        let mut i: usize = 0;
        while i < methods.len()
            invariant
                i <= methods@.len(),
                forall|j: int| 0 <= j < i ==> (#[trigger] methods@[j]).name@ != name@,
            decreases methods@.len() - i,
        {
            if str_equal(methods[i].name.as_str(), name) {
                return Some(methods[i].method);
            }
            i = i + 1;
        }
        None
    }

    /// The first method among `methods` named `name` whose parameter types, formatted,
    /// are `arg_types`.
    pub fn find_method(&self, methods: &[MethodInfo], name: &str, arg_types: &[&str]) -> (r: Option<Il2CppMethod>)
        ensures
            r is None <==> forall|k: int|
                0 <= k < methods@.len() ==> !method_matches(#[trigger] methods@[k], name@, str_views(arg_types@)),
            r matches Some(m) ==> exists|k: int|
                0 <= k < methods@.len() && method_matches(#[trigger] methods@[k], name@, str_views(arg_types@))
                    && methods@[k].method == m
                    && forall|j: int| 0 <= j < k ==> !method_matches(methods@[j], name@, str_views(arg_types@)),
    {
        let ghost args = str_views(arg_types@);
        let mut i: usize = 0;
        while i < methods.len()
            invariant
                i <= methods@.len(),
                args == str_views(arg_types@),
                forall|j: int| 0 <= j < i ==> !method_matches(#[trigger] methods@[j], name@, args),
            decreases methods@.len() - i,
        {
            let info = &methods[i];
            if str_equal(info.name.as_str(), name) {
                let count = info.param_type_names.len();
                if count == arg_types.len() {
                    let mut fail = false;
                    let mut a: usize = 0;
                    while a < count && !fail
                        invariant
                            count == info.param_type_names@.len(),
                            count == arg_types@.len(),
                            args == str_views(arg_types@),
                            a <= count,
                            !fail ==> forall|b: int| 0 <= b < a ==> formatted_type_name(#[trigger] info.param_type_names@[b]@) == args[b],
                            fail ==> exists|b: int| 0 <= b < count && formatted_type_name(#[trigger] info.param_type_names@[b]@) != args[b],
                        decreases count - a, (if fail { 0int } else { 1int }),
                    {
                        let formatted = info.method.arg_type_formatted(a as u32, info.param_type_names[a].as_str());
                        if !str_equal(arg_types[a], formatted.as_str()) {
                            assert(formatted_type_name(info.param_type_names@[a as int]@) != args[a as int]);
                            fail = true;
                        } else {
                            a = a + 1;
                        }
                    }
                    if !fail {
                        assert(method_matches(methods@[i as int], name@, args));
                        return Some(info.method);
                    }
                }
            }
            i = i + 1;
        }
        None
    }
}

impl Il2CppField {
    /// The value of this field, given the object the runtime returned for it: `None`
    /// for the null reference.
    pub fn get_value(&self, raw_value: Il2CppObject) -> (r: Option<Il2CppObject>)
        ensures
            r == (if raw_value.0 == 0 {
                None
            } else {
                Some(raw_value)
            }),
    {
        if raw_value.0 == 0 {
            None
        } else {
            Some(raw_value)
        }
    }
}

} // verus!
