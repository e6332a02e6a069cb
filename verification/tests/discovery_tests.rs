use can_viewer::discovery::{clone_names, same_names, Announcement, Init, Scan};

fn names(list: &[&str]) -> Vec<String> {
    list.iter().map(|n| n.to_string()).collect()
}

#[test]
fn no_device() {
    let mut watcher = Init::new();
    let expected = Announcement::NoDevice { message: "No CAN device found !".to_string() };
    assert_eq!(watcher.run(Scan::Found(vec![])), expected);
    assert_eq!(watcher.run(Scan::Found(vec![])), expected);
}

#[test]
fn devices_are_announced_when_they_change() {
    let mut watcher = Init::new();
    assert_eq!(
        watcher.run(Scan::Found(names(&["can0"]))),
        Announcement::Devices {
            message: "Found 1 CAN devices\n Please select your device ".to_string(),
            names: names(&["can0"]),
        }
    );
    assert_eq!(watcher.run(Scan::Found(names(&["can0"]))), Announcement::Unchanged);
    assert_eq!(
        watcher.run(Scan::Found(names(&["can0", "vcan0"]))),
        Announcement::Devices {
            message: "Found 2 CAN devices\n Please select your device ".to_string(),
            names: names(&["can0", "vcan0"]),
        }
    );
    assert_eq!(watcher.run(Scan::Found(names(&["can0", "vcan0"]))), Announcement::Unchanged);
    assert!(matches!(
        watcher.run(Scan::Found(names(&["vcan0", "can0"]))),
        Announcement::Devices { .. }
    ));
}

#[test]
fn an_empty_scan_does_not_change_what_was_announced() {
    let mut watcher = Init::new();
    watcher.run(Scan::Found(names(&["can0"])));
    assert!(matches!(watcher.run(Scan::Found(vec![])), Announcement::NoDevice { .. }));
    assert_eq!(watcher.run(Scan::Found(names(&["can0"]))), Announcement::Unchanged);
}

#[test]
fn a_failed_scan() {
    let mut watcher = Init::new();
    watcher.run(Scan::Found(names(&["can0"])));
    assert_eq!(
        watcher.run(Scan::Failed("Os { code: 13 }".to_string())),
        Announcement::Failure { message: "Can't get device list: Os { code: 13 }".to_string() }
    );
    assert_eq!(watcher.run(Scan::Found(names(&["can0"]))), Announcement::Unchanged);
}

#[test]
fn many_devices() {
    let mut watcher = Init::new();
    let list: Vec<String> = (0..120).map(|i| format!("can{}", i)).collect();
    match watcher.run(Scan::Found(list.clone())) {
        Announcement::Devices { message, names } => {
            assert_eq!(message, "Found 120 CAN devices\n Please select your device ");
            assert_eq!(names, list);
        }
        other => panic!("{:?}", other),
    }
}

#[test]
fn comparing_and_copying_names() {
    let a = names(&["x", "y"]);
    assert!(same_names(&a, &names(&["x", "y"])));
    assert!(!same_names(&a, &names(&["x"])));
    assert!(!same_names(&a, &names(&["x", "z"])));
    assert!(!same_names(&a, &names(&["y", "x"])));
    assert!(same_names(&vec![], &vec![]));
    assert_eq!(clone_names(&a), a);
}
