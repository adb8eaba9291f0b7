use node_core::bench::{mean_nanos, Mode, Path, SizeType};
use node_core::strutil::{str_contains, str_eq, str_starts_with};

#[test]
fn str_eq_basic() {
    assert!(str_eq("", ""));
    assert!(str_eq("abc", "abc"));
    assert!(!str_eq("abc", "abd"));
    assert!(!str_eq("abc", "ab"));
    assert!(str_eq("näöde", "näöde"));
}

#[test]
fn str_starts_with_basic() {
    assert!(str_starts_with("dev", "dev"));
    assert!(str_starts_with("development", "dev"));
    assert!(str_starts_with("local_testnet", "local"));
    assert!(str_starts_with("anything", ""));
    assert!(!str_starts_with("de", "dev"));
    assert!(!str_starts_with("mainnet", "dev"));
}

#[test]
fn str_contains_basic() {
    assert!(str_contains("::node::proposer", "node"));
    assert!(str_contains("::node::proposer", "proposer"));
    assert!(str_contains("::node::proposer", ""));
    assert!(str_contains("abc", "abc"));
    assert!(!str_contains("::node::proposer", "import"));
    assert!(!str_contains("ab", "abc"));
}

#[test]
fn path_full_and_has() {
    let p = Path::new(&["node", "proposer"]);
    assert_eq!(p.full(), "::node::proposer");
    assert!(p.has("node"));
    assert!(p.has("proposer"));
    assert!(p.has("node::proposer"));
    assert!(!p.has("import"));
}

#[test]
fn path_push_extends() {
    let mut p = Path::new(&["node"]);
    p.push("txpool");
    assert_eq!(p.full(), "::node::txpool");
}

#[test]
fn path_empty_renders_empty() {
    let p = Path::new(&[]);
    assert_eq!(p.full(), "");
}

#[test]
fn mode_from_label() {
    assert_eq!(Mode::from_label("regular"), Some(Mode::Regular));
    assert_eq!(Mode::from_label("profile"), Some(Mode::Profile));
    assert_eq!(Mode::from_label("other"), None);
    assert_eq!(Mode::from_label(""), None);
}

#[test]
fn size_type_transactions() {
    assert_eq!(SizeType::Small.transactions(), Some(10));
    assert_eq!(SizeType::Medium.transactions(), Some(100));
    assert_eq!(SizeType::Large.transactions(), Some(500));
    assert_eq!(SizeType::Full.transactions(), None);
    assert_eq!(SizeType::Custom(42).transactions(), Some(42));
}

#[test]
fn mean_of_samples() {
    assert_eq!(mean_nanos(&vec![2, 4, 9]), Some(5));
    assert_eq!(mean_nanos(&vec![7]), Some(7));
    assert_eq!(mean_nanos(&vec![]), None);
    assert_eq!(mean_nanos(&vec![u64::MAX, u64::MAX]), Some(u64::MAX));
}
