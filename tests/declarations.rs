use const_gen::{
    composite_type, enum_definition, struct_definition, struct_val, variant_val, CompileConst,
    CompileConstArray, Fields,
};
use std::collections::{HashMap, HashSet};

struct TestStruct {
    test_u8: u8,
    test_vec: Vec<String>,
}

impl CompileConst for TestStruct {
    fn const_type() -> String {
        composite_type("TestStruct")
    }

    fn const_val(&self) -> String {
        struct_val(
            "TestStruct",
            &Fields::Named(vec![
                ("test_u8".to_string(), self.test_u8.const_val()),
                ("test_vec".to_string(), self.test_vec.const_val()),
            ]),
        )
    }

    fn const_definition(attrs: &str, vis: &str) -> String {
        struct_definition(
            attrs,
            vis,
            "TestStruct",
            &Fields::Named(vec![
                ("test_u8".to_string(), u8::const_type()),
                ("test_vec".to_string(), <Vec<String>>::const_type()),
            ]),
        )
    }
}

struct TestTup(u8, u16);

impl CompileConst for TestTup {
    fn const_type() -> String {
        composite_type("TestTup")
    }

    fn const_val(&self) -> String {
        struct_val("TestTup", &Fields::Positional(vec![self.0.const_val(), self.1.const_val()]))
    }

    fn const_definition(attrs: &str, vis: &str) -> String {
        struct_definition(
            attrs,
            vis,
            "TestTup",
            &Fields::Positional(vec![u8::const_type(), u16::const_type()]),
        )
    }
}

enum TestEnum {
    Variant1,
    Variant2(u8),
    Variant3 { named: u8 },
}

impl CompileConst for TestEnum {
    fn const_type() -> String {
        composite_type("TestEnum")
    }

    fn const_val(&self) -> String {
        match self {
            TestEnum::Variant1 => variant_val("TestEnum", "Variant1", &Fields::Unit),
            TestEnum::Variant2(v) => {
                variant_val("TestEnum", "Variant2", &Fields::Positional(vec![v.const_val()]))
            }
            TestEnum::Variant3 { named } => variant_val(
                "TestEnum",
                "Variant3",
                &Fields::Named(vec![("named".to_string(), named.const_val())]),
            ),
        }
    }

    fn const_definition(attrs: &str, vis: &str) -> String {
        enum_definition(
            attrs,
            vis,
            "TestEnum",
            &vec![
                ("Variant1".to_string(), Fields::Unit),
                ("Variant2".to_string(), Fields::Positional(vec![u8::const_type()])),
                (
                    "Variant3".to_string(),
                    Fields::Named(vec![("named".to_string(), u8::const_type())]),
                ),
            ],
        )
    }
}

#[test]
fn test_struct() {
    let test_struct = TestStruct { test_u8: 21, test_vec: vec![String::from("Hello there.")] };
    assert_eq!(
        TestStruct::const_definition("#[derive(Debug)]", ""),
        format!("#[derive(Debug)] struct TestStruct{{ test_u8: u8, test_vec: &\'static [&\'static str], }}")
    );
    assert_eq!(
        test_struct.const_declaration("", "", "TEST_STRUCT"),
        format!("const TEST_STRUCT: TestStruct = TestStruct {{ test_u8: 21u8, test_vec: &[\"Hello there.\"], }};")
    );
}

#[test]
fn test_struct_definition() {
    assert_eq!(
        TestStruct::const_definition("#[derive(Debug)]", ""),
        format!("#[derive(Debug)] struct TestStruct{{ test_u8: u8, test_vec: &\'static [&\'static str], }}")
    );
}

#[test]
fn test_tup_struct() {
    let test_tup_struct = TestTup(4, 55);
    assert_eq!(
        test_tup_struct.const_declaration("", "", "TEST_TUP_STRUCT"),
        format!("const TEST_TUP_STRUCT: TestTup = TestTup(4u8,55u16,);")
    );
}

#[test]
fn test_enum() {
    let test_enum = TestEnum::Variant1;
    assert_eq!(
        test_enum.const_declaration("", "", "TEST_ENUM"),
        format!("const TEST_ENUM: TestEnum = TestEnum::Variant1;")
    );

    let test_enum = TestEnum::Variant2(22);
    assert_eq!(
        test_enum.const_declaration("", "", "TEST_ENUM"),
        format!("const TEST_ENUM: TestEnum = TestEnum::Variant2(22u8,);")
    );

    let test_enum = TestEnum::Variant3 { named: 0 };
    assert_eq!(
        test_enum.const_declaration("", "", "TEST_ENUM"),
        format!("const TEST_ENUM: TestEnum = TestEnum::Variant3{{named:0u8,}};")
    );
}

#[test]
fn test_strings() {
    assert_eq!(
        "I'm a string!".const_declaration("", "pub(crate) ", "TEST_STR"),
        format!("pub(crate)  const TEST_STR: &'static str = \"I'm a string!\";")
    );
    assert_eq!(
        String::from("I'm a string!").const_declaration("", "", "TEST_STRING"),
        format!("const TEST_STRING: &'static str = \"I'm a string!\";")
    );
    assert_eq!(
        std::borrow::Cow::from("I'm a string!").const_declaration("", "", "TEST_COW"),
        format!("const TEST_COW: &'static str = \"I'm a string!\";")
    );
}

fn check_num<T: CompileConst + std::fmt::Display>(var_name: &str, ty_name: &str, val: T) {
    assert_eq!(
        val.const_declaration("", "pub", var_name),
        format!("pub const {0}: {1} = {2}{1};", var_name, ty_name, val)
    );
}

#[test]
fn test_nums() {
    check_num("TEST_U8", "u8", u8::MAX);
    check_num("TEST_U16", "u16", u16::MAX);
    check_num("TEST_U32", "u32", u32::MAX);
    check_num("TEST_U64", "u64", u64::MAX);
    check_num("TEST_U128", "u128", u128::MAX);
    check_num("TEST_USIZE", "usize", usize::MAX);
    check_num("TEST_I8", "i8", i8::MAX);
    check_num("TEST_I16", "i16", i16::MAX);
    check_num("TEST_I32", "i32", i32::MAX);
    check_num("TEST_I64", "i64", i64::MAX);
    check_num("TEST_I128", "i128", i128::MAX);
}

#[test]
fn test_map() {
    let mut test_map: HashMap<&str, i32> = HashMap::new();
    test_map.insert("str", 67);
    assert_eq!(
        test_map.const_declaration("", "", "TEST_MAP"),
        format!("const TEST_MAP: phf::Map<&\'static str, i32> = phf::phf_map!{{\"str\" => 67i32}};")
    );
}

#[test]
fn test_set() {
    let mut test_set: HashSet<i32> = HashSet::new();
    test_set.insert(34);
    assert_eq!(
        test_set.const_declaration("", "", "TEST_SET"),
        format!("const TEST_SET: phf::Set<i32> = phf::phf_set!{{34i32}};")
    );
}

#[test]
fn test_vec() {
    let test_vec: Vec<u8> = vec![1, 2, 3, 4, 5, 10, 4];
    assert_eq!(
        test_vec.const_declaration("", "", "TEST_VEC"),
        format!("const TEST_VEC: &'static [u8] = &[1u8,2u8,3u8,4u8,5u8,10u8,4u8];")
    );
}

#[test]
fn test_array() {
    let arr: [u8; 0] = [];
    assert_eq!(arr.const_declaration("", "", "TEST_ARR"), format!("const TEST_ARR: [u8; 0] = [];"));
    let arr: [u8; 1] = [7];
    assert_eq!(
        arr.const_declaration("", "", "TEST_ARR"),
        format!("const TEST_ARR: [u8; 1] = [7u8];")
    );
    let arr: [u8; 9] = [1, 2, 3, 4, 5, 6, 7, 8, 9];
    assert_eq!(
        arr.const_declaration("", "", "TEST_ARR"),
        format!("const TEST_ARR: [u8; 9] = [1u8,2u8,3u8,4u8,5u8,6u8,7u8,8u8,9u8];")
    );
}

#[test]
fn test_const_array_strings() {
    let s: &str = "Hello";
    assert_eq!(
        s.const_array_declaration("", "", "TEST_CONST_STR"),
        format!("const TEST_CONST_STR: [char; 5] = ['H','e','l','l','o',];")
    );
}

#[test]
fn test_const_array_slices() {
    let test_enum: &'static [TestEnum] =
        &[TestEnum::Variant1, TestEnum::Variant2(7), TestEnum::Variant1];
    assert_eq!(
        test_enum.const_array_declaration("", "", "TEST_CONST_SLICE"),
        format!("const TEST_CONST_SLICE: [TestEnum; 3] = [TestEnum::Variant1,TestEnum::Variant2(7u8,),TestEnum::Variant1];")
    );
}

#[test]
fn test_const_array_derefs() {
    let test_enum: Box<&'static [TestEnum]> =
        Box::new(&[TestEnum::Variant1, TestEnum::Variant2(7), TestEnum::Variant1]);
    assert_eq!(
        test_enum.const_array_declaration("", "", "TEST_CONST_SLICE"),
        format!("const TEST_CONST_SLICE: [TestEnum; 3] = [TestEnum::Variant1,TestEnum::Variant2(7u8,),TestEnum::Variant1];")
    );
}

#[test]
fn test_const_array_tuples() {
    let test_enum: (&'static [TestEnum], Vec<i8>) = (&[TestEnum::Variant2(0)], vec![1, 2, 3]);
    assert_eq!(
        test_enum.const_array_declaration("", "", "TEST_CONST_TUP"),
        format!("const TEST_CONST_TUP: ([TestEnum; 1],[i8; 3]) = ([TestEnum::Variant2(0u8,)],[1i8,2i8,3i8]);")
    );
}

#[test]
fn enum_definition_lists_every_variant() {
    assert_eq!(
        TestEnum::const_definition("", "pub"),
        "pub enum TestEnum{ Variant1, Variant2(u8,), Variant3{ named: u8, }, }"
    );
}

#[test]
fn tuple_struct_definition_ends_with_semicolon() {
    assert_eq!(TestTup::const_definition("", ""), "struct TestTup(u8,u16,);");
}

#[test]
fn composite_ty_name_is_the_identifier() {
    assert_eq!(TestStruct::const_type(), "TestStruct");
    assert_eq!(TestTup::const_type(), "TestTup");
    assert_eq!(TestEnum::const_type(), "TestEnum");
}

#[test]
fn variant_forms_close_with_a_comma() {
    assert_eq!(TestEnum::Variant1.const_val(), "TestEnum::Variant1");
    assert_eq!(TestEnum::Variant2(5).const_val(), "TestEnum::Variant2(5u8,)");
    assert_eq!(TestEnum::Variant3 { named: 9 }.const_val(), "TestEnum::Variant3{named:9u8,}");
}
