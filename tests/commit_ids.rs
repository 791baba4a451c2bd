use gitui::commit::CommitId;
use gitui::copy_popups::{sha_text, CopyField, CopyKey, CopyPopupComponent};
use gitui::queue::CopyClipboardOpen;

fn sample() -> CommitId {
    let mut b = [0u8; 20];
    for (i, x) in b.iter_mut().enumerate() {
        *x = (i as u8) * 13 + 7;
    }
    CommitId::new(b)
}

#[test]
fn hex_forms() {
    let id = sample();
    let full = id.to_hex_string();
    assert_eq!(full.len(), 40);
    assert_eq!(&full[..6], "071421");
    assert_eq!(id.get_short_string(), full[..7].to_string());
    assert_eq!(CommitId::new([0xab; 20]).to_hex_string(), "ab".repeat(20));
}

#[test]
fn hex_parse_round_trip() {
    let id = sample();
    assert_eq!(CommitId::from_hex(&id.to_hex_string()), Some(id));
    assert_eq!(CommitId::from_hex(&"AB".repeat(20)), Some(CommitId::new([0xab; 20])));
    assert_eq!(CommitId::from_hex("abc"), None);
    assert_eq!(CommitId::from_hex(&"zz".repeat(20)), None);
}

#[test]
fn copy_popup_copies_shas() {
    let ids = vec![CommitId::new([1; 20]), CommitId::new([2; 20])];
    assert_eq!(sha_text(&ids), format!("{}\n{}", "01".repeat(20), "02".repeat(20)));
    let mut p = CopyPopupComponent::new();
    p.open(CopyClipboardOpen::new(ids));
    assert_eq!(p.event(CopyKey::Other), None);
    assert!(p.visible);
    assert_eq!(p.event(CopyKey::Sha), Some(CopyField::Sha));
    assert!(!p.visible);
    let mut empty = CopyPopupComponent::new();
    empty.visible = true;
    assert_eq!(empty.event(CopyKey::Author), None);
}
