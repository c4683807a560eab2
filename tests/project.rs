use riscan_pro::{Error, Image, Project, Scan, ScanPosition};

type Matrix = [f64; 16];

const IDENTITY: Matrix = [
    1., 0., 0., 0., 0., 1., 0., 0., 0., 0., 1., 0., 0., 0., 0., 1.,
];

/// fx, fy, cx, cy
type Camera = (f64, f64, f64, f64);

const PINHOLE: Camera = (1000., 1000., 500., 500.);

fn scan_position(name: &str, x: f64) -> ScanPosition<Matrix> {
    let mut sop = IDENTITY;
    sop[3] = x;
    let mut sp = ScanPosition::new(IDENTITY, sop);
    sp.set_name(name);
    sp
}

#[test]
fn two_cameras() {
    let r = Project::new(IDENTITY, vec![PINHOLE, PINHOLE], vec![scan_position("SP01", 0.)]);
    assert_eq!(Error::DuplicateCamera, r.unwrap_err());
}

#[test]
fn two_cameras_win_over_bad_names() {
    let r = Project::new(IDENTITY, vec![PINHOLE, PINHOLE], vec![scan_position("", 0.)]);
    assert_eq!(Error::DuplicateCamera, r.unwrap_err());
}

#[test]
fn one_camera_is_kept() {
    let project = Project::new(IDENTITY, vec![PINHOLE], vec![scan_position("SP01", 0.)]).unwrap();
    assert_eq!(Some(&PINHOLE), project.camera());
    assert_eq!(&IDENTITY, project.pop());
}

#[test]
fn no_camera() {
    let project: Project<Matrix, Camera> =
        Project::new(IDENTITY, vec![], vec![scan_position("SP01", 0.)]).unwrap();
    assert_eq!(None, project.camera());
}

#[test]
fn empty_scan_position_name_is_invalid() {
    let r = Project::new(IDENTITY, vec![PINHOLE], vec![scan_position("", 0.)]);
    assert_eq!(Error::ConfigurationInvalid, r.unwrap_err());
}

#[test]
fn repeated_scan_position_name_is_invalid() {
    let r = Project::new(
        IDENTITY,
        vec![PINHOLE],
        vec![scan_position("SP01", 0.), scan_position("SP02", 1.), scan_position("SP01", 2.)],
    );
    assert_eq!(Error::ConfigurationInvalid, r.unwrap_err());
}

#[test]
fn scan_position_by_name() {
    let project = Project::new(
        IDENTITY,
        vec![PINHOLE],
        vec![scan_position("SP01", 1.), scan_position("SP02", 2.)],
    )
    .unwrap();
    assert_eq!(2, project.scan_positions().len());
    let sp = project.scan_position("SP02").unwrap();
    assert_eq!("SP02", sp.name());
    assert_eq!(2., sp.sop()[3]);
    assert_eq!(1., project.scan_position("SP01").unwrap().sop()[3]);
}

#[test]
fn unknown_scan_position() {
    let project = Project::new(IDENTITY, vec![PINHOLE], vec![scan_position("SP01", 1.)]).unwrap();
    assert_eq!(Error::UnknownScanPosition, project.scan_position("SP03").unwrap_err());
    assert_eq!(Error::UnknownScanPosition, project.scan_position("").unwrap_err());
}

#[test]
fn scan_position_accessors() {
    let mut sp = ScanPosition::new(IDENTITY, IDENTITY);
    assert_eq!("", sp.name());
    sp.set_name("ScanPos001");
    assert_eq!("ScanPos001", sp.name());
    let mut moved = IDENTITY;
    moved[3] = 1.;
    moved[7] = 2.;
    moved[11] = 3.;
    sp.set_sop(moved);
    assert_eq!(&moved, sp.sop());
    assert_eq!(&IDENTITY, sp.pop());
    sp.set_pop(moved);
    assert_eq!(&moved, sp.pop());
    assert_eq!("ScanPos001", sp.name());
}

#[test]
fn scans_by_name() {
    let mut sp = ScanPosition::new(IDENTITY, IDENTITY);
    assert!(sp.scan("151120_150404").is_none());
    sp.add_scan(Scan::new("151120_150404"));
    sp.add_scan(Scan::new("151120_150405"));
    assert_eq!("151120_150404", sp.scan("151120_150404").unwrap().name());
    assert_eq!("151120_150405", sp.scan("151120_150405").unwrap().name());
    assert!(sp.scan("151120_150406").is_none());
    sp.add_scan(Scan::new("151120_150404"));
    assert_eq!("151120_150404", sp.scan("151120_150404").unwrap().name());
}

#[test]
fn images_keep_load_order() {
    let mut sp = ScanPosition::new(IDENTITY, IDENTITY);
    let mut second = IDENTITY;
    second[3] = 5.;
    assert_eq!(Ok(()), sp.add_image(Image::new("b.jpg", IDENTITY)));
    assert_eq!(Ok(()), sp.add_image(Image::new("a.jpg", second)));
    let names: Vec<&str> = sp.images().iter().map(|i| i.name()).collect();
    assert_eq!(vec!["b.jpg", "a.jpg"], names);
    assert_eq!(&second, sp.images()[1].mount());
}

#[test]
fn repeated_image_name_is_refused() {
    let mut sp = ScanPosition::new(IDENTITY, IDENTITY);
    assert_eq!(Ok(()), sp.add_image(Image::new("a.jpg", IDENTITY)));
    let mut other = IDENTITY;
    other[3] = 5.;
    assert_eq!(Err(Error::ConfigurationInvalid), sp.add_image(Image::new("a.jpg", other)));
    assert_eq!(1, sp.images().len());
    assert_eq!(&IDENTITY, sp.images()[0].mount());
}
