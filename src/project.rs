use crate::error::Error;
use crate::scan_position::ScanPosition;
use vstd::prelude::*;

verus! {

/// Whether every scan position has a non-empty name that no other one shares.
pub open spec fn names_valid<T>(s: Seq<ScanPosition<T>>) -> bool {
    &&& forall|i: int| 0 <= i < s.len() ==> #[trigger] s[i].spec_name().len() > 0
    &&& forall|i: int, j: int|
        0 <= i < j < s.len() ==> #[trigger] s[i].spec_name() != #[trigger] s[j].spec_name()
}

/// A project: the transform from its reference frame to global coordinates, at most one camera
/// calibration, and its scan positions, each under a name of its own.
#[derive(Clone, Debug)]
pub struct Project<T, C> {
    camera: Option<C>,
    pop: T,
    scan_positions: Vec<ScanPosition<T>>,
}

impl<T, C> Project<T, C> {
    pub closed spec fn spec_camera(&self) -> Option<C> {
        self.camera
    }

    pub closed spec fn spec_pop(&self) -> T {
        self.pop
    }

    pub closed spec fn spec_scan_positions(&self) -> Seq<ScanPosition<T>> {
        self.scan_positions@
    }

    /// Scan position names are present and unique, and each scan position is well formed.
    pub open spec fn wf(&self) -> bool {
        &&& names_valid(self.spec_scan_positions())
        &&& forall|i: int|
            0 <= i < self.spec_scan_positions().len()
                ==> #[trigger] self.spec_scan_positions()[i].wf()
    }

    /// Puts a project together from its configuration.
    ///
    /// More than one camera calibration is refused with `DuplicateCamera`. Otherwise a scan
    /// position without a name, or two under the same name, are refused with
    /// `ConfigurationInvalid`.
    pub fn new(pop: T, cameras: Vec<C>, scan_positions: Vec<ScanPosition<T>>) -> (r: Result<
        Project<T, C>,
        Error,
    >)
        requires
            forall|i: int| 0 <= i < scan_positions@.len() ==> #[trigger] scan_positions@[i].wf(),
        ensures
            cameras@.len() > 1 <==> r matches Err(Error::DuplicateCamera),
            (cameras@.len() <= 1 && !names_valid(scan_positions@)) <==> r matches Err(
                Error::ConfigurationInvalid,
            ),
            r is Err ==> r matches Err(Error::DuplicateCamera) || r matches Err(
                Error::ConfigurationInvalid,
            ),
            r matches Ok(p) ==> {
                &&& p.wf()
                &&& p.spec_pop() == pop
                &&& p.spec_scan_positions() == scan_positions@
                &&& p.spec_camera() == if cameras@.len() == 0 {
                    None
                } else {
                    Some(cameras@[0])
                }
            },
    {
        if cameras.len() > 1 {
            return Err(Error::DuplicateCamera);
        }
        let mut held = cameras;
        let camera = held.pop();
        let n = scan_positions.len();
        let mut i: usize = 0;
        while i < n
            invariant
                n == scan_positions@.len(),
                cameras@.len() <= 1,
                0 <= i <= n,
                forall|a: int| 0 <= a < i ==> #[trigger] scan_positions@[a].spec_name().len() > 0,
                forall|a: int, b: int|
                    0 <= a < b < n && a < i ==> #[trigger] scan_positions@[a].spec_name()
                        != #[trigger] scan_positions@[b].spec_name(),
            decreases n - i,
        {
            if scan_positions[i].name().is_empty() {
                return Err(Error::ConfigurationInvalid);
            }
            let mut j: usize = i + 1;
            while j < n
                invariant
                    n == scan_positions@.len(),
                    cameras@.len() <= 1,
                    0 <= i < j <= n,
                    forall|b: int|
                        i < b < j ==> scan_positions@[i as int].spec_name()
                            != #[trigger] scan_positions@[b].spec_name(),
                decreases n - j,
            {
                let a = scan_positions[i].name();
                let b = scan_positions[j].name();
                if a.to_owned() == b.to_owned() {
                    return Err(Error::ConfigurationInvalid);
                }
                j = j + 1;
            }
            i = i + 1;
        }
        Ok(Project { camera, pop, scan_positions })
    }

    /// The transform from the project-reference frame to global coordinates.
    pub fn pop(&self) -> (r: &T)
        ensures
            *r == self.spec_pop(),
    {
        &self.pop
    }

    /// The project's camera calibration, if it has one.
    pub fn camera(&self) -> (r: Option<&C>)
        ensures
            match r {
                Some(c) => self.spec_camera() == Some(*c),
                None => self.spec_camera() is None,
            },
    {
        match &self.camera {
            Some(c) => Some(c),
            None => None,
        }
    }

    /// The project's scan positions, in the order they were configured.
    pub fn scan_positions(&self) -> (r: &Vec<ScanPosition<T>>)
        ensures
            r@ == self.spec_scan_positions(),
    {
        &self.scan_positions
    }

    /// The scan position with the given name; `UnknownScanPosition` when the project holds none.
    pub fn scan_position(&self, name: &str) -> (r: Result<&ScanPosition<T>, Error>)
        requires
            self.wf(),
        ensures
            r is Err <==> forall|i: int|
                0 <= i < self.spec_scan_positions().len()
                    ==> #[trigger] self.spec_scan_positions()[i].spec_name() != name@,
            r is Err ==> r matches Err(Error::UnknownScanPosition),
            r matches Ok(s) ==> exists|i: int|
                0 <= i < self.spec_scan_positions().len()
                    && #[trigger] self.spec_scan_positions()[i] == *s && s.spec_name() == name@,
    {
        let key = name.to_owned();
        let mut i: usize = 0;
        while i < self.scan_positions.len()
            invariant
                0 <= i <= self.scan_positions@.len(),
                key@ == name@,
                forall|j: int|
                    0 <= j < i ==> #[trigger] self.scan_positions@[j].spec_name() != name@,
            decreases self.scan_positions.len() - i,
        {
            let found = self.scan_positions[i].name().to_owned();
            if found == key {
                proof {
                    assert(self.spec_scan_positions()[i as int] == self.scan_positions@[i as int]);
                }
                return Ok(&self.scan_positions[i]);
            }
            i = i + 1;
        }
        Err(Error::UnknownScanPosition)
    }
}

} // verus!
