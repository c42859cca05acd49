use net_loginer::decoder::decode_labels;
use net_loginer::decoder::decode_labels_checked;

fn charset_ab() -> Vec<String> {
    vec![String::from("_"), String::from("A"), String::from("B")]
}

#[test]
fn collapse_repeats_and_blanks() {
    let labels: Vec<i64> = vec![0, 1, 1, 2, 0, 2];
    let decoded = decode_labels(&labels, &charset_ab());
    assert_eq!(decoded, "AB");
}

#[test]
fn all_blanks_decode_to_empty() {
    let labels: Vec<i64> = vec![0, 0, 0];
    let decoded = decode_labels(&labels, &charset_ab());
    assert_eq!(decoded, "");
}

#[test]
fn alternating_labels_do_not_collapse() {
    let labels: Vec<i64> = vec![1, 2, 1, 2];
    let decoded = decode_labels(&labels, &charset_ab());
    assert_eq!(decoded, "ABAB");
}

#[test]
fn blank_does_not_reset_repeat_tracking() {
    // The last non-blank label seen decides collapsing: a repeat of it
    // after a blank is still dropped.
    let labels: Vec<i64> = vec![1, 0, 1];
    let decoded = decode_labels(&labels, &charset_ab());
    assert_eq!(decoded, "A");
}

#[test]
fn empty_sequence_decodes_to_empty() {
    let labels: Vec<i64> = vec![];
    let decoded = decode_labels(&labels, &charset_ab());
    assert_eq!(decoded, "");
}

#[test]
fn checked_decode_accepts_in_bounds_labels() {
    let labels: Vec<i64> = vec![0, 1, 1, 2, 0, 2];
    let decoded = decode_labels_checked(&labels, &charset_ab());
    assert_eq!(decoded, Some(String::from("AB")));
}

#[test]
fn checked_decode_rejects_out_of_bounds_labels() {
    let labels: Vec<i64> = vec![0, 3];
    assert_eq!(decode_labels_checked(&labels, &charset_ab()), None);
    let negative: Vec<i64> = vec![-1];
    assert_eq!(decode_labels_checked(&negative, &charset_ab()), None);
}

#[test]
fn multi_character_glyphs_are_appended_whole() {
    let charset = vec![String::from("_"), String::from("ab"), String::from("c")];
    let labels: Vec<i64> = vec![1, 2, 1];
    let decoded = decode_labels(&labels, &charset);
    assert_eq!(decoded, "abcab");
}
