use riscan_pro::scan_position_name;

fn parts(path: &str) -> Vec<String> {
    path.split('/').map(|s| s.to_string()).collect()
}

#[test]
fn name_after_scans_dir() {
    let project = parts("/data/project.RiSCAN");
    let path = parts("/data/project.RiSCAN/SCANS/SP01/SINGLESCANS");
    assert_eq!(Some("SP01".to_string()), scan_position_name(&project, &path));
    let path = parts("/data/project.RiSCAN/SCANS/SP02");
    assert_eq!(Some("SP02".to_string()), scan_position_name(&project, &path));
}

#[test]
fn scans_dir_itself_is_no_scan_position() {
    let project = parts("/data/project.RiSCAN");
    assert_eq!(None, scan_position_name(&project, &parts("/data/project.RiSCAN/SCANS")));
    assert_eq!(None, scan_position_name(&project, &parts("/data/project.RiSCAN")));
}

#[test]
fn other_dirs_are_no_scan_position() {
    let project = parts("/data/project.RiSCAN");
    assert_eq!(None, scan_position_name(&project, &parts("/data/project.RiSCAN/PHOTOS/SP01")));
    assert_eq!(None, scan_position_name(&project, &parts("/data/other.RiSCAN/SCANS/SP01")));
    assert_eq!(None, scan_position_name(&project, &parts("/elsewhere")));
}
