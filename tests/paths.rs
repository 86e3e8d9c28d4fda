use scanhub::allocator::{allocate, candidate_file_name, first_free_counter};
use scanhub::asset_path::AssetPath;
use scanhub::decimal::{i32_to_decimal, u64_to_decimal};

fn names(v: &[&str]) -> Vec<String> {
    v.iter().map(|s| s.to_string()).collect()
}

#[test]
fn decimal_renders_digits() {
    assert_eq!(u64_to_decimal(0), "0");
    assert_eq!(u64_to_decimal(7), "7");
    assert_eq!(u64_to_decimal(1234), "1234");
    assert_eq!(u64_to_decimal(u64::MAX), u64::MAX.to_string());
}

#[test]
fn signed_decimal_renders_sign() {
    assert_eq!(i32_to_decimal(-42), "-42");
    assert_eq!(i32_to_decimal(5), "5");
    assert_eq!(i32_to_decimal(i32::MIN), i32::MIN.to_string());
}

#[test]
fn asset_path_forms() {
    let p = AssetPath::from_relative_path("scans/5.png".to_string());
    assert_eq!(p.as_disk_path("./assets"), "./assets/scans/5.png");
    assert_eq!(p.as_web_path(), "/assets/scans/5.png");
    assert_eq!(p.as_relative_path(), "scans/5.png");
    let q: AssetPath = "scans/9.png".to_string().into();
    let back: String = q.into();
    assert_eq!(back, "scans/9.png");
}

#[test]
fn base_name_takes_file_stem() {
    assert_eq!(AssetPath::from_relative_path("scans/5.png".to_string()).base_name(), "5");
    assert_eq!(AssetPath::from_relative_path("scans/5_1.png".to_string()).base_name(), "5_1");
    assert_eq!(AssetPath::from_relative_path("a/b/c.tar.gz".to_string()).base_name(), "c");
    assert_eq!(AssetPath::from_relative_path("plain".to_string()).base_name(), "plain");
    assert_eq!(AssetPath::from_relative_path("dir/".to_string()).base_name(), "");
}

#[test]
fn candidate_names_follow_suffix_order() {
    assert_eq!(candidate_file_name("5", 0), "5.png");
    assert_eq!(candidate_file_name("5", 1), "5_1.png");
    assert_eq!(candidate_file_name("5", 12), "5_12.png");
}

#[test]
fn allocate_in_empty_directory_uses_plain_name() {
    assert_eq!(allocate("5", &Vec::new()).as_relative_path(), "scans/5.png");
}

#[test]
fn allocate_skips_taken_names_in_order() {
    let taken = names(&["5.png", "5_1.png", "7.png"]);
    assert_eq!(first_free_counter("5", &taken), 2);
    assert_eq!(allocate("5", &taken).as_relative_path(), "scans/5_2.png");
    assert_eq!(allocate("7", &taken).as_relative_path(), "scans/7_1.png");
    assert_eq!(allocate("8", &taken).as_relative_path(), "scans/8.png");
}

#[test]
fn allocate_takes_smallest_gap() {
    let taken = names(&["5.png", "5_2.png", "5_3.png"]);
    assert_eq!(allocate("5", &taken).as_relative_path(), "scans/5_1.png");
}

#[test]
fn allocate_skips_precreated_next_file() {
    // The earlier image and the file that would come next are both present.
    let taken = names(&["5.png", "5_1.png"]);
    let p = allocate("5", &taken);
    assert_ne!(p.as_relative_path(), "scans/5.png");
    assert_ne!(p.as_relative_path(), "scans/5_1.png");
    assert_eq!(p.as_relative_path(), "scans/5_2.png");
}

#[test]
fn allocate_may_reuse_deleted_file_name() {
    // Only files present at call time are avoided.
    let taken = names(&["5_1.png"]);
    assert_eq!(allocate("5", &taken).as_relative_path(), "scans/5.png");
}
