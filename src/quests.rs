//! The quest commands: handing a quest to a player by username, and
//! acknowledging a handed-out quest by its id.
use vstd::prelude::*;
use crate::dialogue::{Registry, RegistryView};
use crate::ids::fresh_id;
use crate::records::{LingeringTask, TaskView};
use crate::users::user_named;

verus! {

/// `s` without the tasks whose id is `id`, in the same order.
pub open spec fn without_task(s: Seq<TaskView>, id: u128) -> Seq<TaskView>
    decreases s.len(),
{
    if s.len() == 0 {
        s
    } else if s.last().id == id {
        without_task(s.drop_last(), id)
    } else {
        without_task(s.drop_last(), id).push(s.last())
    }
}

pub open spec fn task_exists(s: Seq<TaskView>, id: u128) -> bool {
    exists|i: int| 0 <= i < s.len() && #[trigger] s[i].id == id
}

/// The registry after handing the quest `name` to the player `assign_to`
/// under the id `id`, and the task handed out.
pub open spec fn assign_outcome(w: RegistryView, name: Seq<char>, assign_to: Seq<char>, id: u128) -> (
    RegistryView,
    Option<TaskView>,
) {
    match user_named(w.users, assign_to) {
        None => (w, None),
        Some(u) => {
            let t = TaskView { id, assigned_to: u.card_hash, quest_name: name };
            (RegistryView { tasks: w.tasks.push(t), ..w }, Some(t))
        },
    }
}

impl Registry {
    /// Acknowledges the quest `quest_id`: every task with that id is removed.
    /// Answers whether there was one.
    pub fn acknowledge(&mut self, quest_id: u128) -> (r: bool)
        requires
            old(self).wf(),
        ensures
            final(self).wf(),
            r == task_exists(old(self)@.tasks, quest_id),
            final(self)@ == (RegistryView { tasks: without_task(old(self)@.tasks, quest_id), ..old(self)@ }),
    {
        proof {
            self.lemma_parts();
        }
        let ghost s = self@.tasks;
        let mut kept: Vec<LingeringTask> = Vec::new();
        let mut found = false;
        let mut i: usize = 0;
        while i < self.tasks.len()
            invariant
                i <= self.tasks.len(),
                s == self.tasks@.map_values(|t: LingeringTask| t@),
                kept@.map_values(|t: LingeringTask| t@) == without_task(s.subrange(0, i as int), quest_id),
                found == task_exists(s.subrange(0, i as int), quest_id),
            decreases self.tasks.len() - i,
        {
            let ghost before = s.subrange(0, i as int);
            let ghost after = s.subrange(0, i as int + 1);
            assert(after.drop_last() =~= before);
            assert(after.last() == self.tasks@[i as int]@);
            if self.tasks[i].id == quest_id {
                found = true;
                assert(after[i as int].id == quest_id);
            } else {
                kept.push(self.tasks[i].duplicate());
                assert(kept@.map_values(|t: LingeringTask| t@) =~= without_task(before, quest_id).push(after.last()));
                assert forall|j: int| 0 <= j < after.len() && #[trigger] after[j].id == quest_id implies j < i && before[j].id == quest_id by {}
            }
            if !found {
                assert forall|j: int| 0 <= j < after.len() implies #[trigger] after[j].id != quest_id by {
                    if j < i {
                        assert(after[j] == before[j]);
                    }
                }
            }
            i = i + 1;
        }
        assert(s.subrange(0, i as int) =~= s);
        self.tasks = kept;
        proof {
            self.lemma_parts();
        }
        found
    }

    /// Hands the quest `name` to the player `assign_to` under the id `id`;
    /// `None` when nobody goes by that username.
    pub fn create_quest_with_id(&mut self, name: String, assign_to: String, id: u128) -> (r: Option<
        LingeringTask,
    >)
        requires
            old(self).wf(),
        ensures
            final(self).wf(),
            final(self)@ == assign_outcome(old(self)@, name@, assign_to@, id).0,
            match r {
                Some(t) => assign_outcome(old(self)@, name@, assign_to@, id).1 == Some(t@),
                None => assign_outcome(old(self)@, name@, assign_to@, id).1 is None,
            },
    {
        proof {
            self.lemma_parts();
        }
        match self.users.find_by_username(&assign_to) {
            None => None,
            Some(u) => {
                let task = LingeringTask { id, assigned_to: u.card_hash, quest_name: name };
                let out = task.duplicate();
                self.tasks.push(task);
                proof {
                    self.lemma_parts();
                    assert(self@.tasks =~= old(self)@.tasks.push(out@));
                }
                Some(out)
            },
        }
    }

    /// Hands the quest `name` to the player `assign_to` under a fresh random id.
    pub fn create_quest(&mut self, name: String, assign_to: String) -> (r: Option<LingeringTask>)
        requires
            old(self).wf(),
        ensures
            final(self).wf(),
            exists|id: u128|
                {
                    &&& final(self)@ == (#[trigger] assign_outcome(old(self)@, name@, assign_to@, id)).0
                    &&& match r {
                        Some(t) => assign_outcome(old(self)@, name@, assign_to@, id).1 == Some(t@),
                        None => assign_outcome(old(self)@, name@, assign_to@, id).1 is None,
                    }
                },
    {
        let id = fresh_id();
        let r = self.create_quest_with_id(name, assign_to, id);
        assert(final(self)@ == assign_outcome(old(self)@, name@, assign_to@, id).0);
        r
    }
}

} // verus!
