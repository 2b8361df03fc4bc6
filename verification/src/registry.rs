//! A registry of background jobs: maps job types to what runs them, for the
//! jobs whose environment is the runner's.
use vstd::prelude::*;

use std::any::TypeId;

verus! {

/// One registered job: the environment type it runs with, its job type, and
/// what runs it.
pub struct RegistryEntry<V> {
    pub env_type: TypeId,
    pub job_type: String,
    pub vtable: V,
}

/// The entry registered last for `job_type` among those with environment
/// `env_type`: later registrations of a job type take the place of earlier ones.
pub open spec fn find_last<V>(entries: Seq<RegistryEntry<V>>, env_type: TypeId, job_type: Seq<char>) -> Option<V>
    decreases entries.len(),
{
    if entries.len() == 0 {
        None
    } else {
        let e = entries.last();
        if e.env_type == env_type && e.job_type@ == job_type {
            Some(e.vtable)
        } else {
            find_last(entries.drop_last(), env_type, job_type)
        }
    }
}

/// Compares two `TypeId`s with std's `PartialEq`, which is true exactly when
/// they identify the same type.
#[verifier::external_body]
fn same_type_id(a: &TypeId, b: &TypeId) -> (r: bool)
    ensures
        r == (*a == *b),
{
    *a == *b
}

/// The jobs registered for one environment type.
pub struct Registry<V> {
    env_type: TypeId,
    jobs: Vec<RegistryEntry<V>>,
}

impl<V> Registry<V> {
    /// The environment type whose jobs are kept.
    pub closed spec fn env_type_spec(&self) -> TypeId {
        self.env_type
    }

    /// What runs jobs of type `job_type`, if any is registered.
    pub closed spec fn lookup(&self, job_type: Seq<char>) -> Option<V> {
        find_last(self.jobs@, self.env_type, job_type)
    }

    /// Keeps the entries whose environment is `env_type`.
    pub fn load(env_type: TypeId, entries: Vec<RegistryEntry<V>>) -> (r: Self)
        ensures
            r.env_type_spec() == env_type,
            forall|job_type: Seq<char>| #[trigger]
                r.lookup(job_type) == find_last(entries@, env_type, job_type),
    {
        let ghost orig = entries@;
        let total = entries.len();
        assert(orig.len() == total);
        let mut rest = entries;
        let mut kept: Vec<RegistryEntry<V>> = Vec::new();
        let mut i: usize = 0;
        while rest.len() > 0
            invariant
                i <= orig.len() <= usize::MAX,
                i + rest.len() == orig.len(),
                rest@ == orig.skip(i as int),
                forall|k: int| 0 <= k < kept.len() ==> (#[trigger] kept@[k]).env_type == env_type,
                forall|job_type: Seq<char>| #[trigger]
                    find_last(kept@, env_type, job_type) == find_last(orig.take(i as int), env_type, job_type),
            decreases rest.len(),
        {
            let e = rest.remove(0);
            proof {
                assert(e == orig[i as int]);
                assert(rest.len() + i + 1 == orig.len());
                assert(orig.take(i + 1).drop_last() == orig.take(i as int));
                assert(rest@ == orig.skip(i + 1));
            }
            let ghost kept_before = kept@;
            let matches = same_type_id(&e.env_type, &env_type);
            let ghost entry = e;
            if matches {
                kept.push(e);
                proof {
                    assert(kept@.drop_last() == kept_before);
                }
            }
            proof {
                assert forall|job_type: Seq<char>| #[trigger]
                    find_last(kept@, env_type, job_type) == find_last(orig.take(i + 1), env_type, job_type) by {
                    assert(orig.take(i + 1).last() == entry);
                    assert(find_last(kept_before, env_type, job_type) == find_last(
                        orig.take(i as int),
                        env_type,
                        job_type,
                    ));
                    if matches {
                        assert(kept@.last() == entry);
                        assert(kept@.drop_last() == kept_before);
                    } else {
                        assert(kept@ == kept_before);
                    }
                }
            }
            i = i + 1;
        }
        proof {
            assert(orig.take(i as int) == orig);
        }
        Registry { env_type, jobs: kept }
    }

    /// What runs jobs of type `job_type`, if any is registered.
    pub fn get(&self, job_type: &str) -> (r: Option<&V>)
        ensures
            match r {
                Some(v) => self.lookup(job_type@) == Some(*v),
                None => self.lookup(job_type@) is None,
            },
    {
        let key = job_type.to_owned();
        let mut i = self.jobs.len();
        assert(self.jobs@.take(i as int) == self.jobs@);
        while i > 0
            invariant
                i <= self.jobs.len(),
                key@ == job_type@,
                find_last(self.jobs@, self.env_type, key@) == find_last(
                    self.jobs@.take(i as int),
                    self.env_type,
                    key@,
                ),
            decreases i,
        {
            let e = &self.jobs[i - 1];
            proof {
                assert(self.jobs@.take(i as int).last() == self.jobs@[i - 1]);
                assert(self.jobs@.take(i as int).drop_last() == self.jobs@.take(i - 1));
            }
            if e.job_type == key && same_type_id(&e.env_type, &self.env_type) {
                return Some(&e.vtable);
            }
            i = i - 1;
        }
        None
    }
}

/// Entry `i` registers `job_type` for environment `env_type`.
pub open spec fn registers<V>(entries: Seq<RegistryEntry<V>>, i: int, env_type: TypeId, job_type: Seq<char>) -> bool {
    entries[i].env_type == env_type && entries[i].job_type@ == job_type
}

/// A job type is found exactly when some entry registers it for the runner's
/// environment; entries for other environments are never found.
pub proof fn law_found_iff_registered<V>(entries: Seq<RegistryEntry<V>>, env_type: TypeId, job_type: Seq<char>)
    ensures
        find_last(entries, env_type, job_type) is Some <==> exists|i: int|
            0 <= i < entries.len() && registers(entries, i, env_type, job_type),
    decreases entries.len(),
{
    if entries.len() > 0 {
        let rest = entries.drop_last();
        let n = entries.len() - 1;
        law_found_iff_registered(rest, env_type, job_type);
        assert(entries.last() == entries[n]);
        if registers(entries, n, env_type, job_type) {
            assert(find_last(entries, env_type, job_type) is Some);
        } else if find_last(entries, env_type, job_type) is Some {
            assert(find_last(entries, env_type, job_type) == find_last(rest, env_type, job_type));
            let i = choose|i: int| 0 <= i < rest.len() && registers(rest, i, env_type, job_type);
            assert(rest[i] == entries[i]);
            assert(registers(entries, i, env_type, job_type));
        } else {
            assert(find_last(entries, env_type, job_type) == find_last(rest, env_type, job_type));
            assert forall|i: int| 0 <= i < entries.len() implies !registers(entries, i, env_type, job_type) by {
                if i < n {
                    assert(rest[i] == entries[i]);
                    assert(!registers(rest, i, env_type, job_type));
                }
            }
        }
    }
}

/// What is found for a job type is the vtable of the last entry that
/// registers it for the runner's environment: a later registration takes
/// the place of an earlier one.
pub proof fn law_last_registration_wins<V>(
    entries: Seq<RegistryEntry<V>>,
    env_type: TypeId,
    job_type: Seq<char>,
    i: int,
)
    requires
        0 <= i < entries.len(),
        registers(entries, i, env_type, job_type),
        forall|j: int| i < j < entries.len() ==> !registers(entries, j, env_type, job_type),
    ensures
        find_last(entries, env_type, job_type) == Some(entries[i].vtable),
    decreases entries.len(),
{
    let n = entries.len() - 1;
    assert(entries.last() == entries[n]);
    if i < n {
        let rest = entries.drop_last();
        assert(!registers(entries, n, env_type, job_type));
        assert(rest[i] == entries[i]);
        assert forall|j: int| i < j < rest.len() implies !registers(rest, j, env_type, job_type) by {
            assert(rest[j] == entries[j]);
            assert(!registers(entries, j, env_type, job_type));
        }
        law_last_registration_wins(rest, env_type, job_type, i);
    }
}

} // verus!
