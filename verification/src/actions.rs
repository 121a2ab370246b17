//! The action registry: uniquely named, single-purpose, replaceable
//! zero-argument handlers bound to a host surface.  Rebinding a name
//! atomically replaces the prior handler; triggering an unbound name is a
//! valid no-op.

use vstd::prelude::*;

verus! {

/// What a bound handler does when it fires.  A handler is a closed command
/// value: everything it needs (for instance, the captured error payload of a
/// "see details" affordance) travels inside it.
#[derive(Debug)]
pub enum Handler {
    /// Move the navigation controller back to the home page.
    NavigateBack,
    /// Open the blocking message dialog over the given text.
    ShowMessageDialog {
        /// The full human-readable text the dialog presents.
        text: String,
    },
    /// Ask the surrounding application to run the game.
    LaunchGame {
        /// Whether the game is to be run in debug mode.
        debug: bool,
    },
    /// Ask the surrounding application to refresh and open the preferences
    /// page.
    OpenPreferences,
}

impl Handler {
    /// A copy of this handler that is equal to it, field for field.
    pub fn duplicate(&self) -> (r: Handler)
        ensures
            r == *self,
    {
        match self {
            Handler::NavigateBack => Handler::NavigateBack,
            Handler::ShowMessageDialog { text } => Handler::ShowMessageDialog {
                text: text.clone(),
            },
            Handler::LaunchGame { debug } => Handler::LaunchGame { debug: *debug },
            Handler::OpenPreferences => Handler::OpenPreferences,
        }
    }
}

/// A (name, handler) binding held by a surface.
#[derive(Debug)]
pub struct PendingAction {
    /// The action name the handler is bound under.
    pub name: String,
    /// The handler that fires when the action is triggered.
    pub handler: Handler,
}

/// What a lookup of `name` finds among `actions`: the handler of the first
/// binding carrying that name, or nothing.
pub open spec fn lookup_action(actions: Seq<PendingAction>, name: Seq<char>) -> Option<Handler>
    decreases actions.len(),
{
    if actions.len() == 0 {
        None
    } else if actions[0].name@ == name {
        Some(actions[0].handler)
    } else {
        lookup_action(actions.drop_first(), name)
    }
}

/// A host surface together with the actions bound to it.
#[derive(Debug)]
pub struct ActionSurface {
    /// The live bindings, at most one per action name.
    pub actions: Vec<PendingAction>,
}

impl ActionSurface {
    /// At most one binding per name: rebinding replaces, it never stacks.
    pub open spec fn wf(self) -> bool {
        forall|i: int, j: int|
            0 <= i < j < self.actions@.len() ==> self.actions@[i].name@ != self.actions@[j].name@
    }

    /// The bindings of the surface, as a map from action name to the handler
    /// currently bound under it.
    pub open spec fn bindings(self) -> Map<Seq<char>, Handler> {
        Map::new(
            |name: Seq<char>| lookup_action(self.actions@, name) is Some,
            |name: Seq<char>| lookup_action(self.actions@, name)->Some_0,
        )
    }

    /// A surface with nothing bound to it.
    pub fn new() -> (r: ActionSurface)
        ensures
            r.wf(),
            r.bindings() == Map::<Seq<char>, Handler>::empty(),
    {
        let r = ActionSurface { actions: Vec::new() };
        proof {
            assert(r.bindings() =~= Map::<Seq<char>, Handler>::empty());
        }
        r
    }

    /// Binds `handler` under `name` on this surface.  If an action with the
    /// same name is already bound, it is atomically replaced: the old
    /// handler is discarded and will never fire again.
    pub fn bind(&mut self, name: &str, handler: Handler)
        requires
            old(self).wf(),
        ensures
            final(self).wf(),
            final(self).bindings() == old(self).bindings().insert(name@, handler),
    {
        let owned: String = name.to_owned();
        let n = self.actions.len();
        let mut i: usize = 0;
        while i < n
            invariant
                n == self.actions@.len(),
                0 <= i <= n,
                self.actions@ == old(self).actions@,
                old(self).wf(),
                owned@ == name@,
                forall|j: int| 0 <= j < i ==> self.actions@[j].name@ != name@,
            decreases n - i,
        {
            if self.actions[i].name == owned {
                let replacement = PendingAction { name: owned, handler };
                self.actions[i] = replacement;
                proof {
                    lemma_lookup_update(old(self).actions@, i as int, self.actions@[i as int]);
                    assert(self.bindings() =~= old(self).bindings().insert(name@, handler));
                }
                return ;
            }
            i = i + 1;
        }
        let fresh = PendingAction { name: owned, handler };
        self.actions.push(fresh);
        proof {
            lemma_lookup_push(old(self).actions@, self.actions@.last());
            assert(self.actions@ =~= old(self).actions@.push(self.actions@.last()));
            assert(self.bindings() =~= old(self).bindings().insert(name@, handler));
        }
    }

    /// The handler currently bound under `name`, if any.  Dispatch invokes
    /// exactly what this yields; an unbound name is a valid no-op, not an
    /// error.
    pub fn trigger(&self, name: &str) -> (r: Option<&Handler>)
        ensures
            match r {
                Some(h) => self.bindings().dom().contains(name@) && *h == self.bindings()[name@],
                None => !self.bindings().dom().contains(name@),
            },
    {
        let ghost all: Seq<PendingAction> = self.actions@;
        let owned: String = name.to_owned();
        let n = self.actions.len();
        let mut i: usize = 0;
        proof {
            assert(all.skip(0) =~= all);
        }
        while i < n
            invariant
                n == all.len(),
                0 <= i <= n,
                all == self.actions@,
                owned@ == name@,
                lookup_action(all, name@) == lookup_action(all.skip(i as int), name@),
            decreases n - i,
        {
            if self.actions[i].name == owned {
                proof {
                    assert(all.skip(i as int)[0] == all[i as int]);
                    assert(lookup_action(all.skip(i as int), name@) == Some(
                        all[i as int].handler,
                    ));
                }
                return Some(&self.actions[i].handler);
            }
            proof {
                assert(all.skip(i as int)[0] == all[i as int]);
                assert(all.skip(i as int).drop_first() =~= all.skip(i + 1));
            }
            i = i + 1;
        }
        proof {
            assert(all.skip(n as int).len() == 0);
        }
        None
    }
}

/// Replacing the unique binding of a name changes what that name yields and
/// nothing else.
proof fn lemma_lookup_update(actions: Seq<PendingAction>, i: int, replacement: PendingAction)
    requires
        0 <= i < actions.len(),
        forall|p: int, q: int|
            0 <= p < q < actions.len() ==> actions[p].name@ != actions[q].name@,
        replacement.name@ == actions[i].name@,
    ensures
        forall|name: Seq<char>|
            #[trigger] lookup_action(actions.update(i, replacement), name) == if name
                == replacement.name@ {
                Some(replacement.handler)
            } else {
                lookup_action(actions, name)
            },
        forall|p: int, q: int|
            0 <= p < q < actions.update(i, replacement).len() ==> actions.update(i, replacement)[p].name@
                != actions.update(i, replacement)[q].name@,
    decreases actions.len(),
{
    let updated = actions.update(i, replacement);
    if i == 0 {
        assert(updated.drop_first() =~= actions.drop_first());
        assert forall|name: Seq<char>|
            #[trigger] lookup_action(updated, name) == if name == replacement.name@ {
                Some(replacement.handler)
            } else {
                lookup_action(actions, name)
            } by {
            if name == replacement.name@ {
                assert(updated[0] == replacement);
            } else {
                assert(updated[0].name@ != name);
                assert(actions[0].name@ != name);
            }
        }
    } else {
        let tail = actions.drop_first();
        assert(updated.drop_first() =~= tail.update(i - 1, replacement));
        assert forall|p: int, q: int| 0 <= p < q < tail.len() implies tail[p].name@
            != tail[q].name@ by {
            assert(actions[p + 1].name@ != actions[q + 1].name@);
        }
        lemma_lookup_update(tail, i - 1, replacement);
        assert forall|name: Seq<char>|
            #[trigger] lookup_action(updated, name) == if name == replacement.name@ {
                Some(replacement.handler)
            } else {
                lookup_action(actions, name)
            } by {
            assert(updated[0] == actions[0]);
            if actions[0].name@ == name {
                assert(actions[0].name@ != actions[i].name@);
            } else {
                assert(lookup_action(updated, name) == lookup_action(
                    tail.update(i - 1, replacement),
                    name,
                ));
            }
        }
    }
}

/// Appending a binding under a name that has no binding yet changes what
/// that name yields and nothing else.
proof fn lemma_lookup_push(actions: Seq<PendingAction>, fresh: PendingAction)
    requires
        forall|j: int| 0 <= j < actions.len() ==> actions[j].name@ != fresh.name@,
    ensures
        forall|name: Seq<char>|
            #[trigger] lookup_action(actions.push(fresh), name) == if name == fresh.name@ {
                Some(fresh.handler)
            } else {
                lookup_action(actions, name)
            },
    decreases actions.len(),
{
    let pushed = actions.push(fresh);
    if actions.len() == 0 {
        assert forall|name: Seq<char>|
            #[trigger] lookup_action(pushed, name) == if name == fresh.name@ {
                Some(fresh.handler)
            } else {
                lookup_action(actions, name)
            } by {
            assert(pushed[0] == fresh);
            if name != fresh.name@ {
                assert(lookup_action(pushed.drop_first(), name) is None);
            }
        }
    } else {
        let tail = actions.drop_first();
        assert(pushed.drop_first() =~= tail.push(fresh));
        lemma_lookup_push(tail, fresh);
        assert forall|name: Seq<char>|
            #[trigger] lookup_action(pushed, name) == if name == fresh.name@ {
                Some(fresh.handler)
            } else {
                lookup_action(actions, name)
            } by {
            assert(pushed[0] == actions[0]);
            if actions[0].name@ != name {
                assert(lookup_action(pushed, name) == lookup_action(pushed.drop_first(), name));
                assert(lookup_action(pushed.drop_first(), name) == lookup_action(
                    tail.push(fresh),
                    name,
                ));
            }
        }
    }
}

/// Rebinding a name replaces the prior handler: after two binds under one
/// name, dispatch reaches only the handler bound second; the handler bound
/// first can never fire again.
pub proof fn lemma_bind_replaces(
    bindings: Map<Seq<char>, Handler>,
    name: Seq<char>,
    first: Handler,
    second: Handler,
)
    ensures
        bindings.insert(name, first).insert(name, second).dom().contains(name),
        bindings.insert(name, first).insert(name, second)[name] == second,
        first != second ==> bindings.insert(name, first).insert(name, second)[name] != first,
{
}

} // verus!
