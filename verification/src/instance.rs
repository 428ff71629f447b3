//! A live resource instance, reduced to what a scan reads of it: its name,
//! its namespace and its annotations.

use vstd::prelude::*;

verus! {

#[derive(Clone, Debug)]
struct Annotation {
    key: String,
    value: String,
}

/// One instance of some kind, as listed by the API server.
///
/// Whatever the kind, a scan reads only the identity of the instance and its
/// annotations. The annotations behave as a map: a key holds one value, and
/// annotating a key again replaces what it held.
#[derive(Clone, Debug)]
pub struct ResourceInstance {
    name: String,
    namespace: String,
    annotations: Vec<Annotation>,
}

/// A `ResourceInstance` as specifications see it.
pub struct InstanceView {
    pub name: Seq<char>,
    pub namespace: Seq<char>,
    pub annotations: Map<Seq<char>, Seq<char>>,
}

/// The map that a list of annotations stands for: a later annotation
/// replaces an earlier one of the same key.
spec fn annotation_map(list: Seq<Annotation>) -> Map<Seq<char>, Seq<char>>
    decreases list.len(),
{
    if list.len() == 0 {
        Map::empty()
    } else {
        annotation_map(list.drop_last()).insert(list.last().key@, list.last().value@)
    }
}

impl View for ResourceInstance {
    type V = InstanceView;

    closed spec fn view(&self) -> InstanceView {
        InstanceView {
            name: self.name@,
            namespace: self.namespace@,
            annotations: annotation_map(self.annotations@),
        }
    }
}

impl ResourceInstance {
    /// An instance without annotations.
    pub fn new(name: String, namespace: String) -> (instance: ResourceInstance)
        ensures
            instance@ == (InstanceView {
                name: name@,
                namespace: namespace@,
                annotations: Map::empty(),
            }),
    {
        ResourceInstance { name, namespace, annotations: Vec::new() }
    }

    /// Sets the annotation `key` to `value`, replacing what it held.
    pub fn annotate(&mut self, key: String, value: String)
        ensures
            final(self)@ == (InstanceView {
                annotations: old(self)@.annotations.insert(key@, value@),
                ..old(self)@
            }),
    {
        self.annotations.push(Annotation { key, value });
        assert(self.annotations@.drop_last() == old(self).annotations@);
    }

    /// The value of the annotation `key`, if the instance carries it.
    pub fn annotation(&self, key: &str) -> (value: Option<&String>)
        ensures
            value is Some <==> self@.annotations.contains_key(key@),
            value matches Some(text) ==> text@ == self@.annotations[key@],
    {
        let wanted = key.to_owned();
        let mut value: Option<&String> = None;
        let mut i: usize = 0;
        while i < self.annotations.len()
            invariant
                i <= self.annotations.len(),
                wanted@ == key@,
                value is Some <==> annotation_map(self.annotations@.take(i as int)).contains_key(
                    key@,
                ),
                value matches Some(text) ==> text@ == annotation_map(
                    self.annotations@.take(i as int),
                )[key@],
            decreases self.annotations.len() - i,
        {
            assert(self.annotations@.take(i + 1).drop_last() == self.annotations@.take(i as int));
            if self.annotations[i].key == wanted {
                value = Some(&self.annotations[i].value);
            }
            i += 1;
        }
        assert(self.annotations@.take(i as int) == self.annotations@);
        value
    }

    /// The name of the instance.
    pub fn name(&self) -> (name: &String)
        ensures
            name@ == self@.name,
    {
        &self.name
    }

    /// The namespace of the instance, empty for one that lives in none.
    pub fn namespace(&self) -> (namespace: &String)
        ensures
            namespace@ == self@.namespace,
    {
        &self.namespace
    }
}

} // verus!
