use veritas::il2cpp::{
    Il2CppClass, Il2CppField, Il2CppMethod, Il2CppObject, Il2CppType, MethodInfo,
};
use veritas::native::{FieldLookup, Il2CppArray, Il2CppError, Il2CppString, RuntimeField, RuntimeType};

fn info(handle: usize, name: &str, params: &[&str]) -> MethodInfo {
    MethodInfo {
        method: Il2CppMethod(handle),
        name: name.to_string(),
        param_type_names: params.iter().map(|p| p.to_string()).collect(),
    }
}

#[test]
fn formatted_name_maps_system_types() {
    let t = Il2CppType(0x1000);
    let table = [
        ("System.Int32", "int"),
        ("System.UInt32", "uint"),
        ("System.Int16", "short"),
        ("System.UInt16", "ushort"),
        ("System.Int64", "long"),
        ("System.UInt64", "ulong"),
        ("System.Byte", "byte"),
        ("System.SByte", "sbyte"),
        ("System.Boolean", "bool"),
        ("System.Single", "float"),
        ("System.Double", "double"),
        ("System.String", "string"),
        ("System.Char", "char"),
        ("System.Object", "object"),
        ("System.Void", "void"),
        ("System.Decimal", "decimal"),
        ("System.DateTime", "DateTime"),
    ];
    for (full, short) in table {
        assert_eq!(t.formatted_name(full), short);
    }
}

#[test]
fn formatted_name_keeps_other_names() {
    let t = Il2CppType(0x1000);
    assert_eq!(t.formatted_name("RPG.GameCore.GameEntity"), "RPG.GameCore.GameEntity");
    assert_eq!(t.formatted_name(""), "");
    assert_eq!(t.formatted_name("int"), "int");
}

#[test]
fn arg_type_formatted_formats_the_parameter_type() {
    let m = Il2CppMethod(0x2000);
    assert_eq!(m.arg_type_formatted(0, "System.UInt32"), "uint");
    assert_eq!(m.arg_type_formatted(1, "RPG.GameCore.AbilityProperty"), "RPG.GameCore.AbilityProperty");
}

#[test]
fn format_params_lists_formatted_types() {
    let m = Il2CppMethod(0x2000);
    let params = vec!["System.Int32".to_string(), "System.String".to_string(), "RPG.Client.TextID".to_string()];
    assert_eq!(m.format_params("GetText", &params), "GetText(int,string,RPG.Client.TextID)");
    assert_eq!(m.format_params("GetMonsterID", &[]), "GetMonsterID()");
    assert_eq!(m.format_params("Single", &["System.Boolean".to_string()]), "Single(bool)");
}

#[test]
fn methods_stop_at_the_first_null_handle() {
    let c = Il2CppClass(0x3000);
    let answers = [Il2CppMethod(10), Il2CppMethod(20), Il2CppMethod(0), Il2CppMethod(30)];
    assert_eq!(c.methods(&answers), vec![Il2CppMethod(10), Il2CppMethod(20)]);
    assert_eq!(c.methods(&[Il2CppMethod(0)]), vec![]);
    assert_eq!(c.methods(&[Il2CppMethod(5)]), vec![Il2CppMethod(5)]);
}

#[test]
fn find_method_by_name_returns_the_first_of_that_name() {
    let c = Il2CppClass(0x3000);
    let methods = vec![info(1, "UseSkill", &[]), info(2, "GetSkillData", &["System.Int32"]), info(3, "GetSkillData", &[])];
    assert_eq!(c.find_method_by_name(&methods, "GetSkillData"), Some(Il2CppMethod(2)));
    assert_eq!(c.find_method_by_name(&methods, "Missing"), None);
}

#[test]
fn find_method_matches_name_and_formatted_argument_types() {
    let c = Il2CppClass(0x3000);
    let methods = vec![
        info(1, "GetSkillData", &["System.Int32"]),
        info(2, "GetSkillData", &["System.Int32", "System.String"]),
        info(3, "GetSkillData", &["System.Int32", "System.Int32"]),
        info(4, "GetSkillData", &["System.Int32", "System.Int32"]),
    ];
    assert_eq!(c.find_method(&methods, "GetSkillData", &["int", "int"]), Some(Il2CppMethod(3)));
    assert_eq!(c.find_method(&methods, "GetSkillData", &["int"]), Some(Il2CppMethod(1)));
    assert_eq!(c.find_method(&methods, "GetSkillData", &["int", "string"]), Some(Il2CppMethod(2)));
    assert_eq!(c.find_method(&methods, "GetSkillData", &["System.Int32"]), None);
    assert_eq!(c.find_method(&methods, "GetSkillData", &[]), None);
    assert_eq!(c.find_method(&methods, "Other", &["int"]), None);
}

#[test]
fn byval_arg_is_128_bytes_into_the_class() {
    assert_eq!(Il2CppClass(0x1000).byval_arg(), Il2CppType(0x1080));
}

#[test]
fn rva_is_relative_to_the_module_base() {
    let m = Il2CppMethod(0x2000);
    assert_eq!(m.rva(0, 0x1_0000), 0);
    assert_eq!(m.rva(0x1_2345, 0x1_0000), 0x2345);
}

#[test]
fn get_value_is_none_for_null() {
    let f = Il2CppField(0x4000);
    assert_eq!(f.get_value(Il2CppObject(0)), None);
    assert_eq!(f.get_value(Il2CppObject(0x55)), Some(Il2CppObject(0x55)));
}

#[test]
fn null_handles() {
    assert!(Il2CppObject::null().is_null());
    assert!(!Il2CppObject(1).is_null());
    assert!(Il2CppString(0).is_null());
    assert_eq!(Il2CppString(7).as_object(), Il2CppObject(7));
    assert!(RuntimeType(0).is_null());
    assert_eq!(RuntimeType(9).as_object(), Il2CppObject(9));
}

#[test]
fn array_layout() {
    let a = Il2CppArray(0x1000);
    assert_eq!(a.first_item_ptr(), 0x1020);
    assert!(a.is_empty(0));
    assert!(!a.is_empty(3));
}

#[test]
fn field_lookup_on_own_type() {
    let t = RuntimeType(0x5000);
    assert_eq!(t.get_field(&Ok(RuntimeField(0x77))), FieldLookup::Found(RuntimeField(0x77)));
    assert_eq!(t.get_field(&Ok(RuntimeField(0))), FieldLookup::AskBaseType);
    assert_eq!(t.get_field(&Err(Il2CppError::Runtime("boom".to_string()))), FieldLookup::AskBaseType);
}

#[test]
fn field_lookup_on_base_type() {
    let t = RuntimeType(0x5000);
    assert_eq!(t.get_field_from_base_type("_Team", Ok(RuntimeField(0x88))), Ok(RuntimeField(0x88)));
    assert_eq!(
        t.get_field_from_base_type("_Team", Ok(RuntimeField(0))),
        Err(Il2CppError::NoSuchField("_Team".to_string()))
    );
    assert_eq!(
        t.get_field_from_base_type("_Team", Err(Il2CppError::Runtime("no base".to_string()))),
        Err(Il2CppError::Runtime("no base".to_string()))
    );
}
