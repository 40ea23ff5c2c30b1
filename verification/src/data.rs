//! The program builder's data section: named, read-only byte images that
//! generated code references by symbol.
//!
//! Each image is installed once, under a name that is unique across the whole
//! program build; generated code later takes the symbol's address through
//! [`crate::cfg::Cfg::symbol_addr`] and the linking environment resolves the
//! two against each other.

use vstd::prelude::*;

verus! {

/// One named datum destined for the data section.
pub struct LustData {
    /// The symbolic name, resolvable from generated code for the remainder
    /// of the build.
    pub name: String,
    /// The byte image installed under the name.
    pub data: Vec<u8>,
}

/// Some entry of `s` carries the name.
pub open spec fn contains_name(s: Seq<LustData>, name: Seq<char>) -> bool {
    exists|i: int| 0 <= i < s.len() && s[i].name@ == name
}

/// Some entry of `s` maps the name to exactly this image.
pub open spec fn resolves_to(s: Seq<LustData>, name: Seq<char>, data: Seq<u8>) -> bool {
    exists|i: int| 0 <= i < s.len() && s[i].name@ == name && s[i].data@ == data
}

/// The data section under construction: the entries installed so far, in
/// installation order, with no name appearing twice.
pub struct DataSection {
    datas: Vec<LustData>,
}

impl DataSection {
    /// The installed entries, in order.
    pub closed spec fn entries(self) -> Seq<LustData> {
        self.datas@
    }

    /// No two entries share a name, so every installed name resolves to one
    /// image.
    pub open spec fn wf(self) -> bool {
        forall|i: int, j: int|
            0 <= i < j < self.entries().len() ==> self.entries()[i].name@
                != self.entries()[j].name@
    }

    /// An empty data section, as a program build starts with.
    pub fn new() -> (s: DataSection)
        ensures
            s.wf(),
            s.entries() == Seq::<LustData>::empty(),
    {
        DataSection { datas: Vec::new() }
    }

    /// How many entries have been installed.
    pub fn len(&self) -> (n: usize)
        ensures
            n == self.entries().len(),
    {
        self.datas.len()
    }

    /// Looks a symbolic name up: the image installed under it, if any.
    pub fn resolve(&self, name: &str) -> (r: Option<&Vec<u8>>)
        ensures
            r is Some <==> contains_name(self.entries(), name@),
            r matches Some(d) ==> resolves_to(self.entries(), name@, d@),
    {
        let wanted: String = name.to_owned();
        let n = self.datas.len();
        let mut i: usize = 0;
        while i < n
            invariant
                n == self.entries().len(),
                i <= n,
                wanted@ == name@,
                forall|j: int| 0 <= j < i ==> self.entries()[j].name@ != name@,
            decreases n - i,
        {
            if self.datas[i].name == wanted {
                return Some(&self.datas[i].data);
            }
            i += 1;
        }
        None
    }
}

/// Installs one datum into the data section.
///
/// Succeeds exactly when the name is not already taken; afterwards the name
/// resolves to the datum's image. On failure nothing is installed.
pub fn create_data(d: LustData, section: &mut DataSection) -> (r: Result<(), String>)
    requires
        old(section).wf(),
    ensures
        final(section).wf(),
        r is Ok <==> !contains_name(old(section).entries(), d.name@),
        r is Ok ==> final(section).entries() == old(section).entries().push(d),
        r is Err ==> final(section).entries() == old(section).entries(),
{
    let n = section.datas.len();
    let mut i: usize = 0;
    while i < n
        invariant
            section.wf(),
            section.entries() == old(section).entries(),
            n == section.entries().len(),
            i <= n,
            forall|j: int| 0 <= j < i ==> section.entries()[j].name@ != d.name@,
        decreases n - i,
    {
        if section.datas[i].name == d.name {
            return Err("duplicate data-section symbol".to_owned());
        }
        i += 1;
    }
    section.datas.push(d);
    Ok(())
}

} // verus!
