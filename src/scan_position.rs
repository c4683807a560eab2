use crate::error::Error;
use vstd::prelude::*;

verus! {

/// A named point-cloud capture taken at a scan position.
#[derive(Clone, Debug)]
pub struct Scan {
    name: String,
}

impl Scan {
    pub closed spec fn spec_name(&self) -> Seq<char> {
        self.name@
    }

    /// A scan with the given name.
    pub fn new(name: &str) -> (r: Scan)
        ensures
            r.spec_name() == name@,
    {
        Scan { name: name.to_owned() }
    }

    /// This scan's name.
    pub fn name(&self) -> (r: &str)
        ensures
            r@ == self.spec_name(),
    {
        self.name.as_str()
    }
}

/// A photograph's geometry: its name and the transform that mounts its camera on the scanner,
/// taking scanner-local coordinates to camera-local ones.
#[derive(Clone, Debug)]
pub struct Image<T> {
    name: String,
    mount: T,
}

impl<T> Image<T> {
    pub closed spec fn spec_name(&self) -> Seq<char> {
        self.name@
    }

    pub closed spec fn spec_mount(&self) -> T {
        self.mount
    }

    /// A photograph with the given name and mounting transform.
    pub fn new(name: &str, mount: T) -> (r: Image<T>)
        ensures
            r.spec_name() == name@,
            r.spec_mount() == mount,
    {
        Image { name: name.to_owned(), mount }
    }

    /// This photograph's name.
    pub fn name(&self) -> (r: &str)
        ensures
            r@ == self.spec_name(),
    {
        self.name.as_str()
    }

    /// The transform from the scanner-local frame to this photograph's camera-local frame.
    pub fn mount(&self) -> (r: &T)
        ensures
            *r == self.spec_mount(),
    {
        &self.mount
    }
}

/// Whether no two scans in `s` share a name.
pub open spec fn scan_names_unique(s: Seq<Scan>) -> bool {
    forall|i: int, j: int|
        0 <= i < j < s.len() ==> #[trigger] s[i].spec_name() != #[trigger] s[j].spec_name()
}

/// Whether no two photographs in `s` share a name.
pub open spec fn image_names_unique<T>(s: Seq<Image<T>>) -> bool {
    forall|i: int, j: int|
        0 <= i < j < s.len() ==> #[trigger] s[i].spec_name() != #[trigger] s[j].spec_name()
}

/// A scan position: a named station with its transforms, its scans and its photographs.
///
/// `sop` takes scanner-local coordinates to the project-reference frame, `pop` takes the
/// project-reference frame to global coordinates. Scans and photographs are keyed by name, and
/// photographs keep the order in which they were added.
#[derive(Clone, Debug)]
pub struct ScanPosition<T> {
    name: String,
    pop: T,
    scans: Vec<Scan>,
    sop: T,
    images: Vec<Image<T>>,
}

impl<T> ScanPosition<T> {
    pub closed spec fn spec_name(&self) -> Seq<char> {
        self.name@
    }

    pub closed spec fn spec_pop(&self) -> T {
        self.pop
    }

    pub closed spec fn spec_sop(&self) -> T {
        self.sop
    }

    pub closed spec fn spec_scans(&self) -> Seq<Scan> {
        self.scans@
    }

    pub closed spec fn spec_images(&self) -> Seq<Image<T>> {
        self.images@
    }

    /// Scan names and photograph names are each unique.
    pub open spec fn wf(&self) -> bool {
        scan_names_unique(self.spec_scans()) && image_names_unique(self.spec_images())
    }

    /// A scan position with an empty name, the given transforms, and no scans or photographs.
    pub fn new(pop: T, sop: T) -> (r: ScanPosition<T>)
        ensures
            r.wf(),
            r.spec_name().len() == 0,
            r.spec_pop() == pop,
            r.spec_sop() == sop,
            r.spec_scans().len() == 0,
            r.spec_images().len() == 0,
    {
        ScanPosition { name: String::new(), pop, scans: Vec::new(), sop, images: Vec::new() }
    }

    /// This scan position's name.
    pub fn name(&self) -> (r: &str)
        ensures
            r@ == self.spec_name(),
    {
        self.name.as_str()
    }

    /// Sets this scan position's name.
    pub fn set_name(&mut self, name: &str)
        ensures
            final(self).spec_name() == name@,
            final(self).spec_pop() == old(self).spec_pop(),
            final(self).spec_sop() == old(self).spec_sop(),
            final(self).spec_scans() == old(self).spec_scans(),
            final(self).spec_images() == old(self).spec_images(),
    {
        self.name = name.to_owned();
    }

    /// The transform from scanner-local coordinates to the project-reference frame.
    pub fn sop(&self) -> (r: &T)
        ensures
            *r == self.spec_sop(),
    {
        &self.sop
    }

    /// Sets the transform from scanner-local coordinates to the project-reference frame.
    pub fn set_sop(&mut self, sop: T)
        ensures
            final(self).spec_sop() == sop,
            final(self).spec_name() == old(self).spec_name(),
            final(self).spec_pop() == old(self).spec_pop(),
            final(self).spec_scans() == old(self).spec_scans(),
            final(self).spec_images() == old(self).spec_images(),
    {
        self.sop = sop;
    }

    /// The transform from the project-reference frame to global coordinates.
    pub fn pop(&self) -> (r: &T)
        ensures
            *r == self.spec_pop(),
    {
        &self.pop
    }

    /// Sets the transform from the project-reference frame to global coordinates.
    pub fn set_pop(&mut self, pop: T)
        ensures
            final(self).spec_pop() == pop,
            final(self).spec_name() == old(self).spec_name(),
            final(self).spec_sop() == old(self).spec_sop(),
            final(self).spec_scans() == old(self).spec_scans(),
            final(self).spec_images() == old(self).spec_images(),
    {
        self.pop = pop;
    }

    /// The scan with the given name, if this scan position holds one.
    pub fn scan(&self, name: &str) -> (r: Option<&Scan>)
        requires
            self.wf(),
        ensures
            r is Some <==> exists|i: int|
                0 <= i < self.spec_scans().len() && #[trigger] self.spec_scans()[i].spec_name()
                    == name@,
            r matches Some(s) ==> exists|i: int|
                0 <= i < self.spec_scans().len() && #[trigger] self.spec_scans()[i] == *s
                    && s.spec_name() == name@,
    {
        let key = name.to_owned();
        let mut i: usize = 0;
        while i < self.scans.len()
            invariant
                0 <= i <= self.scans@.len(),
                key@ == name@,
                forall|j: int| 0 <= j < i ==> #[trigger] self.scans@[j].spec_name() != name@,
            decreases self.scans.len() - i,
        {
            if self.scans[i].name == key {
                proof {
                    assert(self.spec_scans()[i as int] == self.scans@[i as int]);
                    assert(self.spec_scans()[i as int].spec_name() == name@);
                }
                return Some(&self.scans[i]);
            }
            i = i + 1;
        }
        None
    }

    /// Adds a scan. A scan already held under the same name is replaced in place; otherwise the
    /// scan is appended.
    pub fn add_scan(&mut self, scan: Scan)
        requires
            old(self).wf(),
        ensures
            final(self).wf(),
            match old(self).index_of_scan(scan.spec_name()) {
                Some(i) => final(self).spec_scans() == old(self).spec_scans().update(i, scan),
                None => final(self).spec_scans() == old(self).spec_scans().push(scan),
            },
            final(self).spec_name() == old(self).spec_name(),
            final(self).spec_pop() == old(self).spec_pop(),
            final(self).spec_sop() == old(self).spec_sop(),
            final(self).spec_images() == old(self).spec_images(),
    {
        let mut i: usize = 0;
        while i < self.scans.len()
            invariant
                0 <= i <= self.scans@.len(),
                self.scans@ == old(self).scans@,
                self == old(self),
                old(self).wf(),
                forall|j: int| 0 <= j < i ==> #[trigger] self.scans@[j].spec_name() != scan.name@,
            decreases self.scans.len() - i,
        {
            if self.scans[i].name == scan.name {
                proof {
                    assert(old(self).spec_scans()[i as int].spec_name() == scan.spec_name());
                    old(self).lemma_index_of_scan(scan.spec_name(), i as int);
                }
                self.scans.set(i, scan);
                return;
            }
            i = i + 1;
        }
        proof {
            old(self).lemma_index_of_scan_none(scan.spec_name());
        }
        self.scans.push(scan);
    }

    /// Where the scan named `name` stands among this scan position's scans.
    pub open spec fn index_of_scan(&self, name: Seq<char>) -> Option<int> {
        let scans = self.spec_scans();
        if exists|i: int| 0 <= i < scans.len() && #[trigger] scans[i].spec_name() == name {
            Some(choose|i: int| 0 <= i < scans.len() && #[trigger] scans[i].spec_name() == name)
        } else {
            None
        }
    }

    proof fn lemma_index_of_scan(&self, name: Seq<char>, i: int)
        requires
            self.wf(),
            0 <= i < self.spec_scans().len(),
            self.spec_scans()[i].spec_name() == name,
        ensures
            self.index_of_scan(name) == Some(i),
    {
        let scans = self.spec_scans();
        let k = choose|k: int| 0 <= k < scans.len() && #[trigger] scans[k].spec_name() == name;
        assert(self.spec_scans()[i].spec_name() == name);
        if k < i {
            assert(self.spec_scans()[k].spec_name() != self.spec_scans()[i].spec_name());
        } else if i < k {
            assert(self.spec_scans()[i].spec_name() != self.spec_scans()[k].spec_name());
        }
    }

    proof fn lemma_index_of_scan_none(&self, name: Seq<char>)
        requires
            forall|j: int|
                0 <= j < self.spec_scans().len() ==> #[trigger] self.spec_scans()[j].spec_name()
                    != name,
        ensures
            self.index_of_scan(name) is None,
    {
    }

    /// This scan position's photographs, in the order they were added.
    pub fn images(&self) -> (r: &Vec<Image<T>>)
        ensures
            r@ == self.spec_images(),
    {
        &self.images
    }

    /// Adds a photograph after those already held. A photograph whose name is already taken is
    /// refused and nothing changes.
    pub fn add_image(&mut self, image: Image<T>) -> (r: Result<(), Error>)
        requires
            old(self).wf(),
        ensures
            final(self).wf(),
            (exists|i: int|
                0 <= i < old(self).spec_images().len()
                    && #[trigger] old(self).spec_images()[i].spec_name() == image.spec_name())
                <==> r == Err::<(), Error>(Error::ConfigurationInvalid),
            r is Ok ==> final(self).spec_images() == old(self).spec_images().push(image),
            r is Err ==> final(self).spec_images() == old(self).spec_images(),
            final(self).spec_name() == old(self).spec_name(),
            final(self).spec_pop() == old(self).spec_pop(),
            final(self).spec_sop() == old(self).spec_sop(),
            final(self).spec_scans() == old(self).spec_scans(),
    {
        let mut i: usize = 0;
        while i < self.images.len()
            invariant
                0 <= i <= self.images@.len(),
                self == old(self),
                old(self).wf(),
                forall|j: int|
                    0 <= j < i ==> #[trigger] self.images@[j].spec_name() != image.spec_name(),
            decreases self.images.len() - i,
        {
            if self.images[i].name == image.name {
                proof {
                    assert(old(self).spec_images()[i as int].spec_name() == image.spec_name());
                }
                return Err(Error::ConfigurationInvalid);
            }
            i = i + 1;
        }
        self.images.push(image);
        Ok(())
    }
}

} // verus!
