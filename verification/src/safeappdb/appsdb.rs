//! The description of one supervised application.
use vstd::prelude::*;
use crate::safeappdb::config_object::ConfigObject;

verus! {

/// An application that the safety guard supervises: its manager and the
/// monitors, actions and instruments attached to it.
#[derive(Debug)]
pub struct App {
    pub name: String,
    pub max_retries: i64,
    pub critical: bool,
    pub manager: ConfigObject,
    pub safemonitor: Vec<ConfigObject>,
    pub safeaction: Vec<ConfigObject>,
    pub safeinstrument: Vec<ConfigObject>,
}

/// `b` holds the same settings as `a`.
pub open spec fn same_object(a: ConfigObject, b: ConfigObject) -> bool {
    &&& a.object_type == b.object_type
    &&& a.sub_type == b.sub_type
    &&& a.config@ == b.config@
}

/// `b` holds, position by position, the same objects as `a`.
pub open spec fn same_objects(a: Seq<ConfigObject>, b: Seq<ConfigObject>) -> bool {
    &&& a.len() == b.len()
    &&& forall|i: int| 0 <= i < a.len() ==> same_object(#[trigger] a[i], b[i])
}

fn clone_objects(v: &Vec<ConfigObject>) -> (r: Vec<ConfigObject>)
    ensures
        same_objects(v@, r@),
{
    let mut r: Vec<ConfigObject> = Vec::new();
    let mut i: usize = 0;
    while i < v.len()
        invariant
            0 <= i <= v@.len(),
            r@.len() == i,
            forall|j: int| 0 <= j < i ==> same_object(#[trigger] v@[j], r@[j]),
        decreases v@.len() - i,
    {
        r.push(v[i].clone());
        i = i + 1;
    }
    r
}

impl Clone for App {
    fn clone(&self) -> (r: Self)
        ensures
            r.name == self.name,
            r.max_retries == self.max_retries,
            r.critical == self.critical,
            same_object(self.manager, r.manager),
            same_objects(self.safemonitor@, r.safemonitor@),
            same_objects(self.safeaction@, r.safeaction@),
            same_objects(self.safeinstrument@, r.safeinstrument@),
    {
        App {
            name: self.name.clone(),
            max_retries: self.max_retries,
            critical: self.critical,
            manager: self.manager.clone(),
            safemonitor: clone_objects(&self.safemonitor),
            safeaction: clone_objects(&self.safeaction),
            safeinstrument: clone_objects(&self.safeinstrument),
        }
    }
}

/// The number of retries recorded for an application whose description names
/// none.
pub fn default_max_retries() -> (r: i64)
    ensures
        r == -1,
{
    -1
}

} // verus!
