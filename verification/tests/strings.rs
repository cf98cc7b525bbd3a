use musty::derive::naming::{get_collection_name, get_filter_struct_ident, get_getter_name};
use musty::util::decimal::{signed_decimal, unsigned_decimal};
use musty::util::string::{table_case, ToPlural, ToTableCase};

#[test]
fn table_case_puts_an_underscore_before_each_inner_capital() {
    assert_eq!("MyUser".to_table_case(), "my_user");
    assert_eq!("User".to_table_case(), "user");
    assert_eq!("user".to_table_case(), "user");
    assert_eq!("".to_table_case(), "");
    assert_eq!("myUserName".to_table_case(), "my_user_name");
    assert_eq!(String::from("HTTPServer").to_table_case(), "h_t_t_p_server");
    assert_eq!(table_case("A"), "a");
}

#[test]
fn table_case_adds_no_underscore_after_an_underscore() {
    assert_eq!("My_User".to_table_case(), "my_user");
    assert_eq!("_User".to_table_case(), "_user");
    assert_eq!("my__User".to_table_case(), "my__user");
    assert_eq!("User_".to_table_case(), "user_");
}

#[test]
fn table_case_lowers_ascii_letters_only() {
    assert_eq!("ÉcoleÉlève".to_table_case(), "École_Élève");
    assert_eq!("aΔb".to_table_case(), "a_Δb");
    assert_eq!("x1Y2".to_table_case(), "x1_y2");
}

#[test]
fn plural_adds_an_s_unless_there_is_one() {
    assert_eq!("user".to_string().to_plural(), "users");
    assert_eq!("users".to_string().to_plural(), "users");
    assert_eq!("".to_string().to_plural(), "s");
    assert_eq!("s".to_string().to_plural(), "s");
    assert_eq!("boxS".to_string().to_plural(), "boxSs");
    assert_eq!("é".to_string().to_plural(), "és");
}

#[test]
fn decimal_notation_has_no_leading_zeros() {
    assert_eq!(unsigned_decimal(0), "0");
    assert_eq!(unsigned_decimal(5), "5");
    assert_eq!(unsigned_decimal(10), "10");
    assert_eq!(unsigned_decimal(1002003), "1002003");
    assert_eq!(unsigned_decimal(u64::MAX), u64::MAX.to_string());
    assert_eq!(signed_decimal(0), "0");
    assert_eq!(signed_decimal(-5), "-5");
    assert_eq!(signed_decimal(i64::MIN), i64::MIN.to_string());
    assert_eq!(signed_decimal(i64::MAX), i64::MAX.to_string());
}

#[test]
fn the_collection_is_the_given_one_or_the_plural_in_table_case() {
    assert_eq!(get_collection_name("MyStruct", None), "my_structs");
    assert_eq!(get_collection_name("User", None), "users");
    assert_eq!(get_collection_name("Address", None), "address");
    assert_eq!(get_collection_name("NewsItems", None), "news_items");
    assert_eq!(get_collection_name("ÉcoleÉ", None), "École_És");
    assert_eq!(get_collection_name("User", Some(&"ref_users".to_string())), "ref_users");
    assert_eq!(get_collection_name("User", Some(&String::new())), "");
}

#[test]
fn generated_names_are_built_from_the_names_they_belong_to() {
    assert_eq!(get_filter_struct_ident("User"), "UserFilter");
    assert_eq!(get_filter_struct_ident(""), "Filter");
    assert_eq!(get_getter_name("email", None), "get_by_email");
    assert_eq!(get_getter_name("email", Some(&"by_mail".to_string())), "by_mail");
}
