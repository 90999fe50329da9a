use javelin::key::project_key;
use javelin::text::{dec_string, entry_label};
use javelin::direct::{not_found_message, clean_message};

#[test]
fn project_key_replaces_separators() {
    assert_eq!(project_key("/home/user/proj"), "project__home_user_proj");
}

#[test]
fn project_key_is_deterministic() {
    assert_eq!(project_key("/srv/www"), project_key("/srv/www"));
}

#[test]
fn project_key_of_empty_directory() {
    assert_eq!(project_key(""), "project_");
}

#[test]
fn project_key_keeps_other_characters() {
    assert_eq!(project_key("/a_b/c-d"), "project__a_b_c-d");
}

#[test]
fn dec_string_single_digits() {
    assert_eq!(dec_string(0), "0");
    assert_eq!(dec_string(7), "7");
}

#[test]
fn dec_string_multiple_digits() {
    assert_eq!(dec_string(42), "42");
    assert_eq!(dec_string(100), "100");
    assert_eq!(dec_string(909), "909");
}

#[test]
fn entry_labels_are_one_based_up_to_nine() {
    assert_eq!(entry_label(0), "1");
    assert_eq!(entry_label(8), "9");
    assert_eq!(entry_label(9), " ");
    assert_eq!(entry_label(25), " ");
}

#[test]
fn not_found_message_is_exact() {
    assert_eq!(not_found_message(2, 2), "File 3 not found (only 2 files saved)");
    assert_eq!(not_found_message(0, 0), "File 1 not found (only 0 files saved)");
}

#[test]
fn clean_messages() {
    assert_eq!(clean_message(false), "Database does not exist");
    assert_eq!(clean_message(true), "Database deleted successfully");
}
