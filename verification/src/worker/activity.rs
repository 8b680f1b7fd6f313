//! The activities that a worker can carry out.

use vstd::prelude::*;

use crate::domain::ActivityType;

verus! {

/// Why an activity gave no output.
#[derive(Debug, PartialEq, Eq)]
pub struct ActivityError {
    /// The reason in words.
    pub message: String,
}

impl ActivityError {
    /// An error with the reason `message`.
    pub fn new<M: Into<String>>(message: M) -> (result: Self)
        ensures
            call_ensures(<M as Into<String>>::into, (message,), result.message),
    {
        ActivityError { message: message.into() }
    }

    /// The error in words.
    pub fn describe(&self) -> (result: String)
        ensures
            result@ == self.message@,
    {
        self.message.clone()
    }
}

impl Clone for ActivityError {
    fn clone(&self) -> (result: Self)
        ensures
            result.message@ == self.message@,
    {
        ActivityError { message: self.message.clone() }
    }
}

/// The activities that a worker can carry out, by type. Its view is the
/// activities by the name of their type.
pub struct ActivityRegistry<A> {
    activities: Vec<(ActivityType, A)>,
}

/// Whether no type stands twice.
spec fn distinct<A>(activities: Seq<(ActivityType, A)>) -> bool {
    forall|i: int, j: int|
        0 <= i < j < activities.len() ==> (#[trigger] activities[i]).0@ != (
        #[trigger] activities[j]).0@
}

/// Whether `i` is the place of the type `name`.
spec fn is_place<A>(activities: Seq<(ActivityType, A)>, name: Seq<char>, i: int) -> bool {
    0 <= i < activities.len() && activities[i].0@ == name
}

/// The activities by the name of their type.
spec fn by_name<A>(activities: Seq<(ActivityType, A)>) -> Map<Seq<char>, A> {
    Map::new(
        |name: Seq<char>| exists|i: int| is_place(activities, name, i),
        |name: Seq<char>| activities[choose|i: int| is_place(activities, name, i)].1,
    )
}

impl<A> View for ActivityRegistry<A> {
    type V = Map<Seq<char>, A>;

    closed spec fn view(&self) -> Map<Seq<char>, A> {
        by_name(self.activities@)
    }
}

impl<A> ActivityRegistry<A> {
    /// Whether the registry holds each type once.
    pub closed spec fn wf(self) -> bool {
        distinct(self.activities@)
    }

    /// A registry without activities.
    pub fn new() -> (result: Self)
        ensures
            result.wf(),
            result@ == Map::<Seq<char>, A>::empty(),
    {
        let result = ActivityRegistry { activities: Vec::new() };
        assert(result@ =~= Map::<Seq<char>, A>::empty());
        result
    }

    /// Makes `activity` the one for `activity_type`, in place of any it had.
    pub fn register(&mut self, activity_type: ActivityType, activity: A)
        requires
            old(self).wf(),
        ensures
            final(self).wf(),
            final(self)@ == old(self)@.insert(activity_type@, activity),
    {
        let ghost before = self.activities@;
        match self.position(&activity_type) {
            Some(i) => {
                self.activities[i] = (activity_type, activity);
                proof {
                    lemma_replaced(before, i as int, self.activities@[i as int]);
                }
            },
            None => {
                let ghost added = (activity_type, activity);
                self.activities.push((activity_type, activity));
                proof {
                    lemma_added(before, added);
                }
            },
        }
    }

    /// The activity for `activity_type`, if there is one.
    pub fn get(&self, activity_type: &ActivityType) -> (result: Option<&A>)
        requires
            self.wf(),
        ensures
            (match result {
                Some(activity) => Some(*activity),
                None => None,
            }) == self@.get(activity_type@),
    {
        proof {
            lemma_by_name(self.activities@);
        }
        match self.position(activity_type) {
            Some(i) => Some(&self.activities[i].1),
            None => None,
        }
    }

    /// The place of `activity_type`.
    fn position(&self, activity_type: &ActivityType) -> (result: Option<usize>)
        ensures
            result is Some == self@.contains_key(activity_type@),
            result matches Some(i) ==> is_place(self.activities@, activity_type@, i as int),
    {
        let mut i: usize = 0;
        while i < self.activities.len()
            invariant
                i <= self.activities.len(),
                forall|j: int| 0 <= j < i ==> !is_place(self.activities@, activity_type@, j),
            decreases self.activities.len() - i,
        {
            if self.activities[i].0.0 == activity_type.0 {
                proof {
                    assert(is_place(self.activities@, activity_type@, i as int));
                }
                return Some(i);
            }
            i = i + 1;
        }
        None
    }
}

impl<A> Default for ActivityRegistry<A> {
    fn default() -> (result: Self)
        ensures
            result.wf(),
            result@ == Map::<Seq<char>, A>::empty(),
    {
        Self::new()
    }
}

impl<A: Clone> Clone for ActivityRegistry<A> {
    fn clone(&self) -> (result: Self)
        ensures
            self.wf() ==> result.wf(),
            self.wf() ==> result@.dom() == self@.dom(),
            self.wf() ==> forall|name: Seq<char>| #[trigger]
                self@.contains_key(name) ==> cloned(self@[name], result@[name]),
    {
        let mut activities: Vec<(ActivityType, A)> = Vec::new();
        let mut i: usize = 0;
        while i < self.activities.len()
            invariant
                i <= self.activities.len(),
                activities@.len() == i,
                forall|j: int|
                    0 <= j < i ==> {
                        &&& (#[trigger] activities@[j]).0@ == self.activities@[j].0@
                        &&& cloned(self.activities@[j].1, activities@[j].1)
                    },
            decreases self.activities.len() - i,
        {
            let entry = &self.activities[i];
            activities.push((entry.0.clone(), entry.1.clone()));
            i = i + 1;
        }
        let result = ActivityRegistry { activities };
        proof {
            if self.wf() {
                lemma_copied(self.activities@, result.activities@);
            }
        }
        result
    }
}

proof fn lemma_copied<A: Clone>(from: Seq<(ActivityType, A)>, to: Seq<(ActivityType, A)>)
    requires
        distinct(from),
        to.len() == from.len(),
        forall|j: int|
            0 <= j < from.len() ==> {
                &&& (#[trigger] to[j]).0@ == from[j].0@
                &&& cloned(from[j].1, to[j].1)
            },
    ensures
        distinct(to),
        by_name(to).dom() == by_name(from).dom(),
        forall|name: Seq<char>| #[trigger]
            by_name(from).contains_key(name) ==> cloned(by_name(from)[name], by_name(to)[name]),
{
    assert forall|i: int, j: int| 0 <= i < j < to.len() implies (#[trigger] to[i]).0@ != (
    #[trigger] to[j]).0@ by {
        assert(from[i].0@ != from[j].0@);
    }
    lemma_by_name(from);
    lemma_by_name(to);
    assert forall|name: Seq<char>, j: int| #[trigger] is_place(to, name, j) implies is_place(
        from,
        name,
        j,
    ) by {}
    assert forall|name: Seq<char>| #[trigger] by_name(from).contains_key(name) implies by_name(
        to,
    ).contains_key(name) && cloned(by_name(from)[name], by_name(to)[name]) by {
        let j = choose|j: int| is_place(from, name, j);
        assert(to[j].0@ == name);
        assert(is_place(to, name, j));
    }
    assert(by_name(to).dom() =~= by_name(from).dom());
}

proof fn lemma_by_name<A>(activities: Seq<(ActivityType, A)>)
    requires
        distinct(activities),
    ensures
        forall|name: Seq<char>, i: int| #[trigger]
            is_place(activities, name, i) ==> by_name(activities).contains_key(name) && by_name(
                activities,
            )[name] == activities[i].1,
{
    assert forall|name: Seq<char>, i: int| #[trigger] is_place(activities, name, i) implies by_name(
        activities,
    ).contains_key(name) && by_name(activities)[name] == activities[i].1 by {
        let j = choose|j: int| is_place(activities, name, j);
        assert(is_place(activities, name, j));
        assert(i == j);
    }
}

proof fn lemma_replaced<A>(before: Seq<(ActivityType, A)>, i: int, entry: (ActivityType, A))
    requires
        distinct(before),
        is_place(before, entry.0@, i),
    ensures
        distinct(before.update(i, entry)),
        by_name(before.update(i, entry)) == by_name(before).insert(entry.0@, entry.1),
{
    let after = before.update(i, entry);
    assert(distinct(after));
    lemma_by_name(before);
    lemma_by_name(after);
    assert forall|name: Seq<char>, j: int| is_place(before, name, j) == #[trigger] is_place(
        after,
        name,
        j,
    ) by {}
    assert forall|name: Seq<char>, j: int| #[trigger] is_place(before, name, j) == is_place(
        after,
        name,
        j,
    ) by {}
    assert(by_name(after) =~= by_name(before).insert(entry.0@, entry.1));
}

proof fn lemma_added<A>(before: Seq<(ActivityType, A)>, entry: (ActivityType, A))
    requires
        distinct(before),
        !by_name(before).contains_key(entry.0@),
    ensures
        distinct(before.push(entry)),
        by_name(before.push(entry)) == by_name(before).insert(entry.0@, entry.1),
{
    let after = before.push(entry);
    lemma_by_name(before);
    assert forall|j: int| 0 <= j < before.len() implies (#[trigger] before[j]).0@ != entry.0@ by {
        if before[j].0@ == entry.0@ {
            assert(is_place(before, entry.0@, j));
        }
    }
    assert(distinct(after));
    lemma_by_name(after);
    assert(is_place(after, entry.0@, before.len() as int));
    assert forall|name: Seq<char>, j: int| #[trigger] is_place(before, name, j) implies is_place(
        after,
        name,
        j,
    ) by {}
    assert forall|name: Seq<char>, j: int| #[trigger] is_place(after, name, j) implies is_place(
        before,
        name,
        j,
    ) || name == entry.0@ by {}
    assert(by_name(after) =~= by_name(before).insert(entry.0@, entry.1));
}

} // verus!
