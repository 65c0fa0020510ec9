//! The raw record: the fields of one frame, by label.

use super::models::VEField;
use vstd::prelude::*;
use vstd::slice::slice_to_vec;

verus! {

/// The labels of a list of fields, in the order of the list.
pub open spec fn labels_of(fields: Seq<VEField>) -> Seq<Seq<char>> {
    fields.map_values(|field: VEField| field.label@)
}

/// The mapping that a duplicate-free list of fields stands for.
pub open spec fn mapping_of(fields: Seq<VEField>) -> Map<Seq<char>, Seq<u8>> {
    Map::new(
        |label: Seq<char>| labels_of(fields).contains(label),
        |label: Seq<char>| fields[labels_of(fields).index_of(label)].value@,
    )
}

/// In a duplicate-free list each field is what its label maps to.
pub proof fn lemma_mapping_at(fields: Seq<VEField>, i: int)
    requires
        labels_of(fields).no_duplicates(),
        0 <= i < fields.len(),
    ensures
        mapping_of(fields).dom().contains(fields[i].label@),
        mapping_of(fields)[fields[i].label@] == fields[i].value@,
{
    let labels = labels_of(fields);
    assert(labels[i] == fields[i].label@);
    assert(labels.contains(fields[i].label@));
    let j = labels.index_of(fields[i].label@);
    assert(0 <= j < labels.len() && labels[j] == labels[i]);
}

/// A raw record: label to raw value, each label once. The labels keep the
/// order in which they first came.
#[derive(Debug)]
pub struct VEDirectParse {
    entries: Vec<VEField>,
}

impl View for VEDirectParse {
    type V = Map<Seq<char>, Seq<u8>>;

    closed spec fn view(&self) -> Map<Seq<char>, Seq<u8>> {
        mapping_of(self.entries@)
    }
}

impl Clone for VEDirectParse {
    fn clone(&self) -> (copy: VEDirectParse)
        ensures
            copy@ == self@,
            copy.labels() == self.labels(),
    {
        proof {
            use_type_invariant(self);
        }
        let mut entries: Vec<VEField> = Vec::new();
        let mut i: usize = 0;
        while i < self.entries.len()
            invariant
                i <= self.entries@.len(),
                entries@.len() == i,
                forall|j: int|
                    0 <= j < i ==> (#[trigger] entries@[j]).label@ == self.entries@[j].label@
                        && entries@[j].value@ == self.entries@[j].value@,
            decreases self.entries@.len() - i,
        {
            let field = &self.entries[i];
            entries.push(
                VEField {
                    label: field.label.clone(),
                    value: slice_to_vec(field.value.as_slice()),
                },
            );
            i += 1;
        }
        proof {
            assert(labels_of(entries@) =~= labels_of(self.entries@));
            assert(mapping_of(entries@) =~= mapping_of(self.entries@));
        }
        VEDirectParse { entries }
    }
}

impl VEDirectParse {
    #[verifier::type_invariant]
    spec fn each_label_once(self) -> bool {
        labels_of(self.entries@).no_duplicates()
    }

    /// The labels of the record in the order in which they were first
    /// inserted.
    pub closed spec fn labels(&self) -> Seq<Seq<char>> {
        labels_of(self.entries@)
    }

    /// The labels of a record are the domain of its mapping.
    pub proof fn lemma_labels_are_domain(&self)
        ensures
            forall|label: Seq<char>| self.labels().contains(label) <==> self@.dom().contains(label),
    {
    }

    /// The empty record.
    pub fn new() -> (record: VEDirectParse)
        ensures
            record@ == Map::<Seq<char>, Seq<u8>>::empty(),
            record.labels() == Seq::<Seq<char>>::empty(),
    {
        let record = VEDirectParse { entries: Vec::new() };
        assert(record@ =~= Map::<Seq<char>, Seq<u8>>::empty());
        assert(record.labels() =~= Seq::<Seq<char>>::empty());
        record
    }

    /// The number of fields.
    pub fn len(&self) -> (n: usize)
        ensures
            n == self.labels().len(),
            n == self@.dom().len(),
            self@.dom().finite(),
            self.labels().no_duplicates(),
    {
        proof {
            use_type_invariant(self);
            self.lemma_labels_are_domain();
            assert(self@.dom() =~= self.labels().to_set());
            self.labels().unique_seq_to_set();
            vstd::seq_lib::seq_to_set_is_finite(self.labels());
        }
        self.entries.len()
    }

    /// The field at place `i` of the order of [`labels`](Self::labels).
    pub fn field_at(&self, i: usize) -> (field: &VEField)
        requires
            i < self.labels().len(),
        ensures
            field.label@ == self.labels()[i as int],
            self@.dom().contains(field.label@),
            field.value@ == self@[field.label@],
    {
        proof {
            use_type_invariant(self);
            lemma_mapping_at(self.entries@, i as int);
        }
        &self.entries[i]
    }

    /// The raw value under `label`, if the record has one.
    pub fn get(&self, label: &String) -> (value: Option<&Vec<u8>>)
        ensures
            value is Some <==> self@.dom().contains(label@),
            value matches Some(bytes) ==> bytes@ == self@[label@],
    {
        proof {
            use_type_invariant(self);
        }
        let mut i: usize = 0;
        while i < self.entries.len()
            invariant
                i <= self.entries@.len(),
                labels_of(self.entries@).no_duplicates(),
                forall|j: int| 0 <= j < i ==> self.entries@[j].label@ != label@,
            decreases self.entries@.len() - i,
        {
            if self.entries[i].label == *label {
                proof {
                    lemma_mapping_at(self.entries@, i as int);
                }
                return Some(&self.entries[i].value);
            }
            i += 1;
        }
        None
    }

    /// Puts `value` under `label`; a value that stood there before is
    /// replaced.
    pub fn insert(&mut self, label: String, value: Vec<u8>)
        ensures
            final(self)@ == old(self)@.insert(label@, value@),
            final(self).labels() == if old(self).labels().contains(label@) {
                old(self).labels()
            } else {
                old(self).labels().push(label@)
            },
    {
        proof {
            use_type_invariant(&*self);
        }
        let mut entries: Vec<VEField> = Vec::new();
        core::mem::swap(&mut self.entries, &mut entries);
        let ghost before = entries@;
        let mut i: usize = 0;
        while i < entries.len()
            invariant
                i <= entries@.len(),
                entries@ == before,
                before == old(self).entries@,
                labels_of(before).no_duplicates(),
                forall|j: int| 0 <= j < i ==> before[j].label@ != label@,
            decreases entries@.len() - i,
        {
            if entries[i].label == label {
                entries.set(i, VEField { label, value });
                proof {
                    let after = entries@;
                    assert(labels_of(after) =~= labels_of(before));
                    assert(labels_of(before)[i as int] == label@);
                    assert forall|key: Seq<char>| #[trigger]
                        mapping_of(after).dom().contains(key) implies mapping_of(after)[key]
                        == mapping_of(before).insert(label@, value@)[key] by {
                        let k = labels_of(after).index_of(key);
                        lemma_mapping_at(after, k);
                        lemma_mapping_at(before, k);
                    }
                    assert(mapping_of(after) =~= mapping_of(before).insert(label@, value@));
                }
                self.entries = entries;
                return ;
            }
            i += 1;
        }
        entries.push(VEField { label, value });
        proof {
            let after = entries@;
            assert(labels_of(after) =~= labels_of(before).push(label@));
            assert(!labels_of(before).contains(label@));
            assert forall|key: Seq<char>| #[trigger]
                mapping_of(after).dom().contains(key) implies mapping_of(after)[key]
                == mapping_of(before).insert(label@, value@)[key] by {
                let k = labels_of(after).index_of(key);
                lemma_mapping_at(after, k);
                if k < before.len() {
                    lemma_mapping_at(before, k);
                }
            }
            assert forall|key: Seq<char>|
                mapping_of(before).insert(label@, value@).dom().contains(key)
                implies #[trigger] mapping_of(after).dom().contains(key) by {
                if key != label@ {
                    let k = labels_of(before).index_of(key);
                    assert(labels_of(after)[k] == key);
                } else {
                    assert(labels_of(after)[before.len() as int] == key);
                }
            }
            assert(mapping_of(after) =~= mapping_of(before).insert(label@, value@));
        }
        self.entries = entries;
    }
}

} // verus!
