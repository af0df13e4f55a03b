use file_manager::file::{File, FileType};
use file_manager::registry::FileManagerContract;
use ink::primitives::AccountId;

fn alice() -> AccountId {
    AccountId::from([0x01; 32])
}

fn bob() -> AccountId {
    AccountId::from([0x02; 32])
}

#[test]
fn constructor_works() {
    let contract = FileManagerContract::new();
    assert_eq!(contract.next_file_id(), 0);
}

#[test]
fn add_file_works() {
    let mut contract = FileManagerContract::new();
    let file_id = contract.add_file(
        alice(),
        0,
        "test_file".to_string(),
        200,
        "little file description".to_string(),
        FileType::Pdf,
    );
    assert_eq!(file_id, 0);
    let file = contract.get_file(file_id).unwrap();
    assert_eq!(file.name, "test_file");
    assert_eq!(file.file_type, FileType::Pdf);
    assert_eq!(file.id, 0);
}

#[test]
fn get_file_works() {
    let mut contract = FileManagerContract::new();
    let file_id = contract.add_file(
        alice(),
        0,
        "example".to_string(),
        200,
        "little file description".to_string(),
        FileType::Pdf,
    );
    let file = contract.get_file(file_id).unwrap();
    assert_eq!(file.name, "example");
    assert_eq!(file.file_type, FileType::Pdf);
}

#[test]
fn update_file_works() {
    let mut contract = FileManagerContract::new();
    let file_id = contract.add_file(
        alice(),
        0,
        "old_name".to_string(),
        200,
        "little file description".to_string(),
        FileType::Docx,
    );
    assert!(contract.update_file(
        alice(),
        file_id,
        "new_name".to_string(),
        500,
        "new file description".to_string(),
        FileType::Pdf
    ));
    let updated_file = contract.get_file(file_id).unwrap();
    assert_eq!(updated_file.name, "new_name");
    assert_eq!(updated_file.file_type, FileType::Pdf);
}

#[test]
fn delete_file_works() {
    let mut contract = FileManagerContract::new();
    let file_id = contract.add_file(
        alice(),
        0,
        "file_to_delete".to_string(),
        200,
        "little file description".to_string(),
        FileType::Pdf,
    );
    assert!(contract.delete_file(alice(), file_id));
    assert!(contract.get_file(file_id).is_none());
}

#[test]
fn default_is_an_empty_registry() {
    let contract = FileManagerContract::default();
    assert_eq!(contract.next_file_id(), 0);
    assert!(!contract.is_exhausted());
    assert!(contract.get_file(0).is_none());
}

#[test]
fn created_ids_count_up_from_zero() {
    let mut contract = FileManagerContract::new();
    for expected in 0..50u64 {
        let caller = if expected % 2 == 0 { alice() } else { bob() };
        let id = contract.add_file(
            caller,
            expected * 10,
            format!("file_{}", expected),
            expected,
            String::new(),
            FileType::Txt,
        );
        assert_eq!(id, expected);
        assert_eq!(contract.next_file_id(), expected + 1);
    }
}

#[test]
fn ids_are_not_reused_after_deletion() {
    let mut contract = FileManagerContract::new();
    let first = contract.add_file(alice(), 1, "a".to_string(), 1, "".to_string(), FileType::Csv);
    let second = contract.add_file(alice(), 2, "b".to_string(), 2, "".to_string(), FileType::Csv);
    assert_eq!((first, second), (0, 1));
    assert!(contract.delete_file(alice(), first));
    assert!(contract.delete_file(alice(), second));
    let third = contract.add_file(bob(), 3, "c".to_string(), 3, "".to_string(), FileType::Csv);
    assert_eq!(third, 2);
    assert!(contract.get_file(0).is_none());
    assert!(contract.get_file(1).is_none());
    assert_eq!(contract.get_file(2).unwrap().owner, bob());
}

#[test]
fn read_after_create_returns_what_was_supplied() {
    let mut contract = FileManagerContract::new();
    contract.add_file(bob(), 5, "first".to_string(), 1, "one".to_string(), FileType::Jpg);
    let id = contract.add_file(
        alice(),
        1_700_000_000_000,
        "slides.pptx".to_string(),
        u64::MAX,
        "quarterly slides".to_string(),
        FileType::Pptx,
    );
    assert_eq!(id, 1);
    assert_eq!(
        contract.get_file(id),
        Some(File {
            id: 1,
            name: "slides.pptx".to_string(),
            file_type: FileType::Pptx,
            size: u64::MAX,
            description: "quarterly slides".to_string(),
            timestamp: 1_700_000_000_000,
            owner: alice(),
        })
    );
    assert_eq!(
        contract.get_file(0),
        Some(File {
            id: 0,
            name: "first".to_string(),
            file_type: FileType::Jpg,
            size: 1,
            description: "one".to_string(),
            timestamp: 5,
            owner: bob(),
        })
    );
}

#[test]
fn anyone_may_read() {
    let mut contract = FileManagerContract::new();
    let id = contract.add_file(alice(), 9, "n".to_string(), 3, "d".to_string(), FileType::Png);
    let first = contract.get_file(id).unwrap();
    let second = contract.get_file(id).unwrap();
    assert_eq!(first, second);
    assert_eq!(first.owner, alice());
}

#[test]
fn owner_update_changes_only_the_mutable_fields() {
    let mut contract = FileManagerContract::new();
    let kept = contract.add_file(bob(), 11, "kept".to_string(), 7, "k".to_string(), FileType::Xls);
    let id = contract.add_file(
        alice(),
        22,
        "old".to_string(),
        200,
        "before".to_string(),
        FileType::Docx,
    );
    assert!(contract.update_file(
        alice(),
        id,
        "new".to_string(),
        500,
        "after".to_string(),
        FileType::Unknown
    ));
    assert_eq!(
        contract.get_file(id),
        Some(File {
            id,
            name: "new".to_string(),
            file_type: FileType::Unknown,
            size: 500,
            description: "after".to_string(),
            timestamp: 22,
            owner: alice(),
        })
    );
    assert_eq!(contract.get_file(kept).unwrap().name, "kept");
    assert_eq!(contract.get_file(kept).unwrap().size, 7);
    assert_eq!(contract.next_file_id(), 2);
}

#[test]
fn stranger_cannot_update_or_delete() {
    let mut contract = FileManagerContract::new();
    let id = contract.add_file(
        alice(),
        3,
        "mine".to_string(),
        10,
        "private".to_string(),
        FileType::Txt,
    );
    let before = contract.get_file(id).unwrap();
    assert!(!contract.update_file(
        bob(),
        id,
        "stolen".to_string(),
        0,
        "".to_string(),
        FileType::Unknown
    ));
    assert_eq!(contract.get_file(id).unwrap(), before);
    assert!(!contract.delete_file(bob(), id));
    assert_eq!(contract.get_file(id).unwrap(), before);
    assert_eq!(contract.next_file_id(), 1);
}

#[test]
fn accounts_differing_in_one_byte_are_strangers() {
    let mut near = [0x01u8; 32];
    near[31] = 0x00;
    let mut contract = FileManagerContract::new();
    let id = contract.add_file(alice(), 3, "mine".to_string(), 10, "".to_string(), FileType::Txt);
    assert!(!contract.delete_file(AccountId::from(near), id));
    assert!(contract.delete_file(AccountId::from([0x01; 32]), id));
}

#[test]
fn deleted_record_stays_gone() {
    let mut contract = FileManagerContract::new();
    let gone = contract.add_file(alice(), 1, "gone".to_string(), 1, "".to_string(), FileType::Pdf);
    let stays =
        contract.add_file(alice(), 2, "stays".to_string(), 2, "".to_string(), FileType::Pdf);
    assert!(contract.delete_file(alice(), gone));
    assert!(contract.get_file(gone).is_none());
    assert!(!contract.update_file(
        alice(),
        gone,
        "back".to_string(),
        1,
        "".to_string(),
        FileType::Pdf
    ));
    assert!(!contract.delete_file(alice(), gone));
    assert!(!contract.delete_file(bob(), gone));
    assert!(contract.get_file(gone).is_none());
    assert_eq!(contract.get_file(stays).unwrap().name, "stays");
}

#[test]
fn never_created_id_is_absent() {
    let mut contract = FileManagerContract::new();
    assert!(contract.get_file(0).is_none());
    assert!(!contract.delete_file(alice(), 0));
    assert!(!contract.update_file(alice(), 0, "x".to_string(), 1, "".to_string(), FileType::Pdf));
    contract.add_file(alice(), 0, "only".to_string(), 1, "".to_string(), FileType::Pdf);
    for id in [1, 2, 1000, u64::MAX] {
        assert!(contract.get_file(id).is_none());
        assert!(!contract.update_file(
            alice(),
            id,
            "x".to_string(),
            1,
            "".to_string(),
            FileType::Pdf
        ));
        assert!(!contract.delete_file(alice(), id));
    }
    assert_eq!(contract.get_file(0).unwrap().name, "only");
    assert_eq!(contract.next_file_id(), 1);
}

#[test]
fn report_scenario() {
    let a = alice();
    let b = bob();
    let mut contract = FileManagerContract::new();

    let id = contract.add_file(
        a,
        42,
        "report.pdf".to_string(),
        1024,
        "Q1 report".to_string(),
        FileType::Pdf,
    );
    assert_eq!(id, 0);
    let file = contract.get_file(0).unwrap();
    assert_eq!(file.id, 0);
    assert_eq!(file.name, "report.pdf");
    assert_eq!(file.file_type, FileType::Pdf);
    assert_eq!(file.size, 1024);
    assert_eq!(file.owner, a);

    assert!(!contract.update_file(
        b,
        0,
        "report_v2.pdf".to_string(),
        2048,
        "revised".to_string(),
        FileType::Pdf
    ));
    let file = contract.get_file(0).unwrap();
    assert_eq!(file.name, "report.pdf");
    assert_eq!(file.size, 1024);

    assert!(contract.update_file(
        a,
        0,
        "report_v2.pdf".to_string(),
        2048,
        "revised".to_string(),
        FileType::Pdf
    ));
    let file = contract.get_file(0).unwrap();
    assert_eq!(file.name, "report_v2.pdf");
    assert_eq!(file.size, 2048);
    assert_eq!(file.description, "revised");
    assert_eq!(file.file_type, FileType::Pdf);
    assert_eq!(file.timestamp, 42);
    assert_eq!(file.owner, a);

    assert!(!contract.delete_file(b, 0));
    assert!(contract.get_file(0).is_some());
    assert!(contract.delete_file(a, 0));
    assert!(contract.get_file(0).is_none());
}

#[test]
fn names_need_not_be_unique() {
    let mut contract = FileManagerContract::new();
    let first =
        contract.add_file(alice(), 1, "same.txt".to_string(), 1, "".to_string(), FileType::Txt);
    let second =
        contract.add_file(bob(), 2, "same.txt".to_string(), 2, "".to_string(), FileType::Txt);
    assert_ne!(first, second);
    assert_eq!(contract.get_file(first).unwrap().owner, alice());
    assert_eq!(contract.get_file(second).unwrap().owner, bob());
    assert_eq!(contract.get_file(first).unwrap().name, contract.get_file(second).unwrap().name);
}
