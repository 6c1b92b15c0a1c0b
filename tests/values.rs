use const_gen::{
    CompileConst, CompileConstArray, DeclarationType, IpAddr, Ipv4Addr, Ipv6Addr, SocketAddr,
    SocketAddrV4, SocketAddrV6,
};
use either::Either;
use std::collections::{HashMap, HashSet};
use std::rc::Rc;
use std::sync::Arc;

#[test]
fn u8_max_literal_and_type() {
    assert_eq!(255u8.const_val(), "255u8");
    assert_eq!(u8::const_type(), "u8");
}

#[test]
fn integer_edge_values() {
    assert_eq!(0u32.const_val(), "0u32");
    assert_eq!((-1i8).const_val(), "-1i8");
    assert_eq!(i8::MIN.const_val(), "-128i8");
    assert_eq!(i128::MIN.const_val(), "-170141183460469231731687303715884105728i128");
    assert_eq!(u128::MAX.const_val(), "340282366920938463463374607431768211455u128");
    assert_eq!(isize::const_type(), "isize");
    assert_eq!((-42isize).const_val(), "-42isize");
}

#[test]
fn bool_and_char_literals() {
    assert_eq!(true.const_val(), "true");
    assert_eq!(false.const_val(), "false");
    assert_eq!(bool::const_type(), "bool");
    assert_eq!('x'.const_val(), "'x'");
    assert_eq!('é'.const_val(), "'é'");
    assert_eq!(char::const_type(), "char");
}

#[test]
fn string_literal_and_type() {
    assert_eq!("I'm a string!".const_val(), "\"I'm a string!\"");
    assert_eq!(<&str>::const_type(), "&'static str");
    assert_eq!(String::const_type(), "&'static str");
    assert_eq!(String::new().const_val(), "\"\"");
}

#[test]
fn declaration_with_attributes_and_visibility() {
    assert_eq!(
        "I'm a string!".declaration(
            "#[allow(dead_code)]",
            "pub(crate)",
            DeclarationType::Const,
            "TEST_STR"
        ),
        "#[allow(dead_code)] pub(crate) const TEST_STR: &'static str = \"I'm a string!\";"
    );
    assert_eq!(
        7u16.static_declaration("#[used]", "", "SEVEN"),
        "#[used] static SEVEN: u16 = 7u16;"
    );
    assert_eq!(DeclarationType::Static.keyword(), "static");
    assert_eq!(DeclarationType::Const.keyword(), "const");
}

#[test]
fn types_need_no_definition() {
    assert_eq!(u8::const_definition("#[derive(Debug)]", "pub"), "");
    assert_eq!(<Vec<String>>::const_definition("", ""), "");
}

#[test]
fn option_literals() {
    let none: Option<u8> = None;
    assert_eq!(none.const_val(), "None");
    assert_eq!(Some(3u8).const_val(), "Some(3u8)");
    assert_eq!(Some(Some("a")).const_val(), "Some(Some(\"a\"))");
    assert_eq!(<Option<i64>>::const_type(), "Option<i64>");
}

#[test]
fn empty_sequence() {
    let v: Vec<u8> = Vec::new();
    assert_eq!(v.const_val(), "&[]");
    assert_eq!(v.const_array_type(), "[u8; 0]");
    assert_eq!(v.const_array_val(), "[]");
}

#[test]
fn nested_sequences() {
    let v: Vec<Vec<bool>> = vec![vec![true], vec![], vec![false, true]];
    assert_eq!(<Vec<Vec<bool>>>::const_type(), "&'static [&'static [bool]]");
    assert_eq!(v.const_val(), "&[&[true],&[],&[false,true]]");
}

#[test]
fn vec_as_fixed_array() {
    let v: Vec<i16> = vec![-1, 0, 300];
    assert_eq!(
        v.static_array_declaration("", "pub", "TABLE"),
        "pub static TABLE: [i16; 3] = [-1i16,0i16,300i16];"
    );
}

#[test]
fn string_as_char_array() {
    assert_eq!(String::from("ab").const_array_type(), "[char; 2]");
    assert_eq!(String::from("ab").const_array_val(), "['a','b',]");
    assert_eq!(String::new().const_array_val(), "[]");
}

#[test]
fn fixed_arrays_of_strings() {
    let a: [&str; 2] = ["x", "y"];
    assert_eq!(<[&str; 2]>::const_type(), "[&'static str; 2]");
    assert_eq!(a.const_val(), "[\"x\",\"y\"]");
}

#[test]
fn wrappers_pass_through() {
    assert_eq!(Box::new(5u8).const_val(), "5u8");
    assert_eq!(<Box<u8>>::const_type(), "u8");
    assert_eq!(Rc::new(true).const_val(), "true");
    assert_eq!(Arc::new('z').const_val(), "'z'");
    assert_eq!(<Arc<char>>::const_type(), "char");
    let owned: std::borrow::Cow<'_, u32> = std::borrow::Cow::Owned(9);
    assert_eq!(owned.const_val(), "9u32");
}

#[test]
fn tuples_of_several_arities() {
    assert_eq!(().const_val(), "()");
    assert_eq!(<()>::const_type(), "()");
    assert_eq!((1u8, 'c').const_val(), "(1u8,'c')");
    assert_eq!(<(u8, char)>::const_type(), "(u8,char)");
    let t = (1u8, 2u16, 3u32, 4u64, 5u128, 6usize, 7i8, 8i16, 9i32, 10i64, 11i128, 12isize, true, 'd', "e", ());
    assert_eq!(
        t.const_val(),
        "(1u8,2u16,3u32,4u64,5u128,6usize,7i8,8i16,9i32,10i64,11i128,12isize,true,'d',\"e\",())"
    );
}

#[test]
fn either_literals() {
    let l: Either<u8, bool> = Either::Left(1);
    let r: Either<u8, bool> = Either::Right(true);
    assert_eq!(<Either<u8, bool>>::const_type(), "::either::Either<u8,bool>");
    assert_eq!(l.const_val(), "::either::Either::Left(1u8)");
    assert_eq!(r.const_val(), "::either::Either::Right(true)");
}

#[test]
fn map_literal_lists_every_entry() {
    let mut m: HashMap<u8, char> = HashMap::new();
    m.insert(1, 'a');
    m.insert(2, 'b');
    m.insert(3, 'c');
    let text = m.const_val();
    assert!(text.starts_with("phf::phf_map!{"));
    assert!(text.ends_with("}"));
    for entry in ["1u8 => 'a'", "2u8 => 'b'", "3u8 => 'c'"] {
        assert!(text.contains(entry));
    }
    assert_eq!(text.len(), "phf::phf_map!{1u8 => 'a',2u8 => 'b',3u8 => 'c'}".len());
    assert_eq!(<HashMap<u8, char>>::const_type(), "phf::Map<u8, char>");
}

#[test]
fn map_literal_is_stable_within_a_run() {
    let mut m: HashMap<u32, &str> = HashMap::new();
    for i in 0..50u32 {
        m.insert(i, "v");
    }
    assert_eq!(m.const_val(), m.const_val());
    let mut s: HashSet<i64> = HashSet::new();
    for i in 0..50i64 {
        s.insert(i * 7);
    }
    assert_eq!(s.const_val(), s.const_val());
}

#[test]
fn set_literal_lists_every_member() {
    let mut s: HashSet<&str> = HashSet::new();
    s.insert("p");
    s.insert("q");
    let text = s.const_val();
    assert!(text == "phf::phf_set!{\"p\",\"q\"}" || text == "phf::phf_set!{\"q\",\"p\"}");
    assert_eq!(<HashSet<&str>>::const_type(), "phf::Set<&'static str>");
}

#[test]
fn empty_map_and_set() {
    let m: HashMap<u8, u8> = HashMap::new();
    assert_eq!(m.const_val(), "phf::phf_map!{}");
    let s: HashSet<u8> = HashSet::new();
    assert_eq!(s.const_val(), "phf::phf_set!{}");
}

#[test]
fn ipv4_address() {
    let a = Ipv4Addr::new(127, 0, 0, 1);
    assert_eq!(Ipv4Addr::const_type(), "core::net::Ipv4Addr");
    assert_eq!(a.const_val(), "core::net::Ipv4Addr::new(127,0,0,1)");
}

#[test]
fn ipv6_address() {
    let a = Ipv6Addr::new(0xfe80, 0, 0, 0, 0, 0, 0, 65535);
    assert_eq!(a.const_val(), "core::net::Ipv6Addr::new(65152,0,0,0,0,0,0,65535)");
}

#[test]
fn ip_address_of_either_family() {
    let a = IpAddr::V4(Ipv4Addr::new(10, 1, 2, 3));
    assert_eq!(a.const_val(), "core::net::IpAddr::V4(core::net::Ipv4Addr::new(10,1,2,3))");
    let b = IpAddr::V6(Ipv6Addr::new(0, 0, 0, 0, 0, 0, 0, 1));
    assert_eq!(b.const_val(), "core::net::IpAddr::V6(core::net::Ipv6Addr::new(0,0,0,0,0,0,0,1))");
}

#[test]
fn socket_addresses() {
    let v4 = SocketAddrV4 { ip: Ipv4Addr::new(192, 168, 0, 1), port: 8080 };
    assert_eq!(
        v4.const_val(),
        "core::net::SocketAddrV4::new(core::net::Ipv4Addr::new(192,168,0,1), 8080)"
    );
    let v6 = SocketAddrV6 {
        ip: Ipv6Addr::new(0, 0, 0, 0, 0, 0, 0, 1),
        port: 443,
        flowinfo: 7,
        scope_id: 3,
    };
    assert_eq!(
        v6.const_val(),
        "core::net::SocketAddrV6::new(core::net::Ipv6Addr::new(0,0,0,0,0,0,0,1), 443, 7, 3)"
    );
    let s = SocketAddr::new(IpAddr::V4(Ipv4Addr::new(1, 2, 3, 4)), 53);
    assert_eq!(s.port(), 53);
    assert_eq!(
        s.const_val(),
        "core::net::SocketAddr::new(core::net::IpAddr::V4(core::net::Ipv4Addr::new(1,2,3,4)), 53)"
    );
    assert_eq!(SocketAddr::const_type(), "core::net::SocketAddr");
}

#[test]
fn ipv6_socket_address_keeps_flow_info_and_scope_id() {
    let ip = Ipv6Addr::new(0, 0, 0, 0, 0, 0, 0, 1);
    let a = SocketAddr::V6(SocketAddrV6 { ip, port: 443, flowinfo: 7, scope_id: 3 });
    let b = SocketAddr::V6(SocketAddrV6 { ip, port: 443, flowinfo: 8, scope_id: 3 });
    assert_eq!(
        a.const_val(),
        "core::net::SocketAddr::V6(core::net::SocketAddrV6::new(core::net::Ipv6Addr::new(0,0,0,0,0,0,0,1), 443, 7, 3))"
    );
    assert_ne!(a.const_val(), b.const_val());
    let zero = SocketAddr::new(IpAddr::V6(ip), 80);
    assert_eq!(
        zero.const_val(),
        "core::net::SocketAddr::V6(core::net::SocketAddrV6::new(core::net::Ipv6Addr::new(0,0,0,0,0,0,0,1), 80, 0, 0))"
    );
}

#[test]
fn single_entry_map_and_single_member_set() {
    let mut m: HashMap<u16, bool> = HashMap::new();
    m.insert(5, true);
    assert_eq!(m.const_val(), "phf::phf_map!{5u16 => true}");
    let mut s: HashSet<char> = HashSet::new();
    s.insert('k');
    assert_eq!(s.const_val(), "phf::phf_set!{'k'}");
}
