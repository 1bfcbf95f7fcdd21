use partmount::partition::Partition;
use partmount::render::{render_label, render_options};
use partmount::select::{matches_answer, picker_enabled, resolve_answer};

fn part(name: &str, size: &str, mountpoint: &str) -> Partition {
    Partition {
        name: name.to_string(),
        size: size.to_string(),
        fstype: "N/A".to_string(),
        mountpoint: mountpoint.to_string(),
        children: None,
    }
}

#[test]
fn label_of_unmounted_partition_has_no_marker() {
    assert_eq!(render_label(&part("sdb1", "10G", "N/A")), "Name: sdb1, Size: 10G  ");
}

#[test]
fn label_of_mounted_partition_ends_in_asterisk() {
    assert_eq!(render_label(&part("sdc1", "1.8T", "/data")), "Name: sdc1, Size: 1.8T  *");
    assert_eq!(render_label(&part("sda1", "512M", "/")), "Name: sda1, Size: 512M  *");
}

#[test]
fn label_passes_name_and_size_through() {
    assert_eq!(render_label(&part("", "", "N/A")), "Name: , Size:   ");
    assert_eq!(render_label(&part("nvme0n1p2", " 4,5 G ", "")), "Name: nvme0n1p2, Size:  4,5 G   *");
}

#[test]
fn absent_marker_is_case_sensitive() {
    assert_eq!(render_label(&part("sdb1", "10G", "n/a")), "Name: sdb1, Size: 10G  *");
    assert_eq!(render_label(&part("sdb1", "10G", "N/A ")), "Name: sdb1, Size: 10G  *");
}

#[test]
fn options_follow_the_indices() {
    let parts = vec![
        part("sda1", "1G", "/"),
        part("sdb1", "2G", "N/A"),
        part("sdc1", "3G", "/data"),
    ];
    assert_eq!(
        render_options(&parts, &vec![1, 2]),
        vec!["Name: sdb1, Size: 2G  ".to_string(), "Name: sdc1, Size: 3G  *".to_string()]
    );
    assert_eq!(
        render_options(&parts, &vec![2, 0]),
        vec!["Name: sdc1, Size: 3G  *".to_string(), "Name: sda1, Size: 1G  *".to_string()]
    );
    assert_eq!(render_options(&parts, &Vec::new()), Vec::<String>::new());
}

#[test]
fn partitions_with_different_names_get_different_labels() {
    let parts = vec![
        part("sdb1", "2G", "N/A"),
        part("sdb2", "2G", "N/A"),
        part("sdb3", "2G", "/mnt"),
        part("sdb4", "2G", "/mnt"),
    ];
    let labels = render_options(&parts, &vec![0, 1, 2, 3]);
    for i in 0..labels.len() {
        for j in 0..labels.len() {
            if i != j {
                assert_ne!(labels[i], labels[j]);
            }
        }
    }
}

#[test]
fn matches_answer_is_exact() {
    assert!(matches_answer("Name: sdb1, Size: 2G", "Name: sdb1, Size: 2G"));
    assert!(!matches_answer("Name: sdb1, Size: 2G", "Name: sdb1, Size: 2G "));
    assert!(!matches_answer("Name: sdb1, Size: 2G", "name: sdb1, Size: 2G"));
}

#[test]
fn answer_resolves_against_trimmed_options() {
    let options = vec![
        "Name: sdb1, Size: 2G  ".to_string(),
        "Name: sdc1, Size: 3G  *".to_string(),
        "Name: sdd1, Size: 4G  ".to_string(),
    ];
    assert_eq!(resolve_answer(&options, "Name: sdb1, Size: 2G"), Some(0));
    assert_eq!(resolve_answer(&options, "Name: sdc1, Size: 3G  *"), Some(1));
    assert_eq!(resolve_answer(&options, "Name: sdd1, Size: 4G"), Some(2));
}

#[test]
fn answer_is_not_trimmed() {
    let options = vec!["Name: sdb1, Size: 2G  ".to_string()];
    assert_eq!(resolve_answer(&options, "Name: sdb1, Size: 2G  "), None);
    assert_eq!(resolve_answer(&options, "Name: sdb1, Size: 2G\n"), None);
}

#[test]
fn answer_outside_the_list_resolves_to_nothing() {
    let options = vec![
        "Name: sdb1, Size: 2G  ".to_string(),
        "Name: sdc1, Size: 3G  *".to_string(),
    ];
    assert_eq!(resolve_answer(&options, "Name: sdz9, Size: 2G"), None);
    assert_eq!(resolve_answer(&options, ""), None);
    assert_eq!(resolve_answer(&Vec::new(), "Name: sdb1, Size: 2G"), None);
}

#[test]
fn first_of_equal_options_wins() {
    let options = vec![
        "a  ".to_string(),
        " b".to_string(),
        "b ".to_string(),
        "a".to_string(),
    ];
    assert_eq!(resolve_answer(&options, "b"), Some(1));
    assert_eq!(resolve_answer(&options, "a"), Some(0));
}

#[test]
fn only_the_word_true_enables_the_picker() {
    assert!(picker_enabled("true"));
    assert!(!picker_enabled("false"));
    assert!(!picker_enabled("True"));
    assert!(!picker_enabled(" true"));
    assert!(!picker_enabled(""));
}
