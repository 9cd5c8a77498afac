use haithe::matching::{match_enabled_products, select_enabled};

fn addr(b: u8) -> [u8; 20] {
    [b; 20]
}

fn s(v: &[&str]) -> Vec<String> {
    v.iter().map(|x| x.to_string()).collect()
}

#[test]
fn on_chain_addresses_are_compared_in_lowercase_hex() {
    let mut a = [0u8; 20];
    a[0] = 0xAB;
    a[19] = 0x01;
    let project = s(&["0xab00000000000000000000000000000000000001"]);
    assert_eq!(match_enabled_products(&vec![a], &project), project);
    let other = s(&["ab00000000000000000000000000000000000001"]);
    assert!(match_enabled_products(&vec![a], &other).is_empty());
}

#[test]
fn exact_matches_keep_on_chain_order() {
    let chain = vec![addr(0xaa), addr(0xbb), addr(0xcc)];
    let project = s(&[
        "0xcccccccccccccccccccccccccccccccccccccccc",
        "0xaaaaaaaaaaaaaaaaaaaaaaaaaaaaaaaaaaaaaaaa",
    ]);
    let r = match_enabled_products(&chain, &project);
    assert_eq!(
        r,
        s(&[
            "0xaaaaaaaaaaaaaaaaaaaaaaaaaaaaaaaaaaaaaaaa",
            "0xcccccccccccccccccccccccccccccccccccccccc",
        ])
    );
}

#[test]
fn lowercase_fallback_when_exact_match_is_empty() {
    let chain = vec![addr(0xaa), addr(0xbb)];
    let project = s(&["0xBBBBBBBBBBBBBBBBBBBBBBBBBBBBBBBBBBBBBBBB"]);
    let r = match_enabled_products(&chain, &project);
    assert_eq!(r, s(&["0xbbbbbbbbbbbbbbbbbbbbbbbbbbbbbbbbbbbbbbbb"]));
}

#[test]
fn no_common_product_gives_empty_list() {
    let chain = vec![addr(0xaa)];
    let project = s(&["0xbbbbbbbbbbbbbbbbbbbbbbbbbbbbbbbbbbbbbbbb"]);
    assert!(match_enabled_products(&chain, &project).is_empty());
    assert!(match_enabled_products(&vec![], &project).is_empty());
}

#[test]
fn exact_match_wins_over_a_larger_lowercase_match() {
    let chain = s(&["0xAA", "0xbb"]);
    let chain_lower = s(&["0xaa", "0xbb"]);
    let project = s(&["0xbb", "0xaa"]);
    let project_lower = s(&["0xbb", "0xaa"]);
    let r = select_enabled(&chain, &chain_lower, &project, &project_lower);
    assert_eq!(r, s(&["0xbb"]));
}

#[test]
fn lowercase_selection_from_given_forms() {
    let chain = s(&["0xAA", "0xBB"]);
    let chain_lower = s(&["0xaa", "0xbb"]);
    let project = s(&["0xaa"]);
    let project_lower = s(&["0xaa"]);
    let r = select_enabled(&chain, &chain_lower, &project, &project_lower);
    assert_eq!(r, s(&["0xaa"]));
}
