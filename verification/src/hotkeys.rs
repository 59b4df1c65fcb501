//! Global hotkey planning: which accelerators to register, unregister or
//! reject, and the book-keeping of what is currently registered.
//!
//! Talking to the platform's shortcut manager is I/O and stays outside the
//! library; the decisions — when a change is a no-op, which requests are
//! blank or duplicates — live here.  The caller applies a plan and commits
//! the registrations that actually succeeded.

use vstd::prelude::*;

use crate::text::{trim_nonblank, trimmed};

verus! {

/// One requested action hotkey.
#[derive(Debug)]
pub struct ActionHotkeyInput {
    pub id: String,
    pub accelerator: String,
}

/// The registered hotkeys: the microphone accelerator, and one accelerator
/// per action.
#[derive(Debug)]
pub struct HotkeyState {
    pub mic: Option<String>,
    pub actions: Vec<ActionHotkeyInput>,
}

/// What to do about the microphone hotkey.
#[derive(Debug)]
pub enum MicPlan {
    /// The request changes nothing.
    Keep,
    /// Unregister the current accelerator.
    Clear,
    /// Unregister any current accelerator and register this one.
    Replace(String),
}

impl HotkeyState {
    /// No hotkeys registered.
    pub fn new() -> (r: HotkeyState)
        ensures
            r.mic is None,
            r.actions@.len() == 0,
    {
        HotkeyState { mic: None, actions: Vec::new() }
    }

    /// Decides what a microphone hotkey request means: a blank request
    /// clears any current registration, a request equal to the current one
    /// is a no-op, anything else replaces the registration with the
    /// trimmed accelerator.
    pub fn plan_mic(&self, requested: Option<&str>) -> (r: MicPlan)
        ensures
            ({
                let desired = match requested {
                    Option::Some(s) => trimmed(s@),
                    Option::None => Seq::<char>::empty(),
                };
                if desired.len() == 0 {
                    if self.mic is Some {
                        r is Clear
                    } else {
                        r is Keep
                    }
                } else if (match self.mic {
                    Option::Some(cur) => cur@ == desired,
                    Option::None => false,
                }) {
                    r is Keep
                } else {
                    r matches MicPlan::Replace(a) && a@ == desired
                }
            }),
    {
        let desired = match requested {
            Some(s) => trim_nonblank(s),
            None => None,
        };
        match desired {
            None => {
                if self.mic.is_some() {
                    MicPlan::Clear
                } else {
                    MicPlan::Keep
                }
            },
            Some(d) => {
                let same = match &self.mic {
                    Some(cur) => cur.eq(&d),
                    None => false,
                };
                if same {
                    MicPlan::Keep
                } else {
                    MicPlan::Replace(d)
                }
            },
        }
    }

    /// Records a successfully registered microphone accelerator.
    pub fn commit_mic(&mut self, accelerator: String) -> (r: ())
        ensures
            final(self).mic == Option::Some(accelerator),
            final(self).actions == old(self).actions,
    {
        self.mic = Some(accelerator);
    }

    /// Records that the microphone accelerator was unregistered.
    pub fn clear_mic(&mut self) -> (r: ())
        ensures
            final(self).mic is None,
            final(self).actions == old(self).actions,
    {
        self.mic = None;
    }

    /// Records a successfully registered action hotkey.
    pub fn commit_action(&mut self, entry: ActionHotkeyInput) -> (r: ())
        ensures
            final(self).actions@ == old(self).actions@.push(entry),
            final(self).mic == old(self).mic,
    {
        self.actions.push(entry);
    }

    /// Empties the action registrations and hands back the accelerators to
    /// unregister.
    pub fn take_actions(&mut self) -> (r: Vec<ActionHotkeyInput>)
        ensures
            r == old(self).actions,
            final(self).actions@.len() == 0,
            final(self).mic == old(self).mic,
    {
        let mut taken: Vec<ActionHotkeyInput> = Vec::new();
        core::mem::swap(&mut taken, &mut self.actions);
        taken
    }
}

/// The id/accelerator views of a list of requests.
pub open spec fn hk_views(v: Seq<ActionHotkeyInput>) -> Seq<(Seq<char>, Seq<char>)> {
    v.map_values(|h: ActionHotkeyInput| (h.id@, h.accelerator@))
}

/// The accepted registrations among the requests: blank accelerators are
/// dropped, the first request for an accelerator wins, and accepted
/// accelerators are stored trimmed.
pub open spec fn plan_reg(hs: Seq<(Seq<char>, Seq<char>)>, used: Set<Seq<char>>) -> Seq<
    (Seq<char>, Seq<char>),
>
    decreases hs.len(),
{
    if hs.len() == 0 {
        Seq::empty()
    } else {
        let t = trimmed(hs[0].1);
        if t.len() == 0 {
            plan_reg(hs.skip(1), used)
        } else if used.contains(t) {
            plan_reg(hs.skip(1), used)
        } else {
            seq![(hs[0].0, t)] + plan_reg(hs.skip(1), used.insert(t))
        }
    }
}

/// The rejected duplicates among the requests: those whose trimmed,
/// non-blank accelerator was already accepted earlier.
pub open spec fn plan_dup(hs: Seq<(Seq<char>, Seq<char>)>, used: Set<Seq<char>>) -> Seq<
    (Seq<char>, Seq<char>),
>
    decreases hs.len(),
{
    if hs.len() == 0 {
        Seq::empty()
    } else {
        let t = trimmed(hs[0].1);
        if t.len() == 0 {
            plan_dup(hs.skip(1), used)
        } else if used.contains(t) {
            seq![(hs[0].0, t)] + plan_dup(hs.skip(1), used)
        } else {
            plan_dup(hs.skip(1), used.insert(t))
        }
    }
}

/// One unfolding of the two planning functions.
proof fn lemma_plan_unfold(hs: Seq<(Seq<char>, Seq<char>)>, used: Set<Seq<char>>)
    requires
        hs.len() > 0,
    ensures
        ({
            let t = trimmed(hs[0].1);
            &&& plan_reg(hs, used) == (if t.len() == 0 {
                plan_reg(hs.skip(1), used)
            } else if used.contains(t) {
                plan_reg(hs.skip(1), used)
            } else {
                seq![(hs[0].0, t)] + plan_reg(hs.skip(1), used.insert(t))
            })
            &&& plan_dup(hs, used) == (if t.len() == 0 {
                plan_dup(hs.skip(1), used)
            } else if used.contains(t) {
                seq![(hs[0].0, t)] + plan_dup(hs.skip(1), used)
            } else {
                plan_dup(hs.skip(1), used.insert(t))
            })
        }),
{
}

/// Splits the requested action hotkeys into the registrations to perform
/// and the duplicates to report, silently dropping blank accelerators;
/// accepted accelerators come out trimmed.
pub fn plan_action_hotkeys(hotkeys: &Vec<ActionHotkeyInput>) -> (r: (
    Vec<ActionHotkeyInput>,
    Vec<ActionHotkeyInput>,
))
    ensures
        hk_views(r.0@) == plan_reg(hk_views(hotkeys@), Set::empty()),
        hk_views(r.1@) == plan_dup(hk_views(hotkeys@), Set::empty()),
{
    let mut register: Vec<ActionHotkeyInput> = Vec::new();
    let mut duplicates: Vec<ActionHotkeyInput> = Vec::new();
    let mut used: Vec<String> = Vec::new();
    let ghost all = hk_views(hotkeys@);
    let ghost used_set = Set::<Seq<char>>::empty();
    let mut i: usize = 0;
    proof {
        assert(all.skip(0) =~= all);
        assert(hk_views(register@) + plan_reg(all, Set::empty()) =~= plan_reg(all, Set::empty()));
        assert(hk_views(duplicates@) + plan_dup(all, Set::empty()) =~= plan_dup(
            all,
            Set::empty(),
        ));
    }
    while i < hotkeys.len()
        invariant
            0 <= i <= hotkeys@.len(),
            all == hk_views(hotkeys@),
            plan_reg(all, Set::empty()) == hk_views(register@) + plan_reg(
                all.skip(i as int),
                used_set,
            ),
            plan_dup(all, Set::empty()) == hk_views(duplicates@) + plan_dup(
                all.skip(i as int),
                used_set,
            ),
            forall|t: Seq<char>|
                used_set.contains(t) <==> exists|j: int|
                    0 <= j < used@.len() && #[trigger] used@[j]@ == t,
        decreases hotkeys@.len() - i,
    {
        let ghost pre_reg = register@;
        let ghost pre_dup = duplicates@;
        let ghost pre_used = used_set;
        let ghost remaining = all.skip(i as int);
        let entry = &hotkeys[i];
        proof {
            assert(remaining[0] == (entry.id@, entry.accelerator@));
            assert(remaining.skip(1) =~= all.skip(i + 1));
            lemma_plan_unfold(remaining, used_set);
        }
        match trim_nonblank(entry.accelerator.as_str()) {
            None => {},
            Some(t) => {
                let mut already = false;
                let mut j: usize = 0;
                while j < used.len()
                    invariant
                        0 <= j <= used@.len(),
                        already == exists|m: int|
                            0 <= m < j && #[trigger] used@[m]@ == t@,
                    decreases used@.len() - j,
                {
                    if used[j].eq(&t) {
                        already = true;
                    }
                    j = j + 1;
                }
                if already {
                    duplicates.push(ActionHotkeyInput { id: entry.id.clone(), accelerator: t });
                    proof {
                        assert(used_set.contains(trimmed(remaining[0].1)));
                        assert(hk_views(duplicates@) =~= hk_views(pre_dup).push(
                            (remaining[0].0, trimmed(remaining[0].1)),
                        ));
                        assert(hk_views(pre_dup).push((remaining[0].0, trimmed(remaining[0].1)))
                            + plan_dup(remaining.skip(1), used_set) =~= hk_views(pre_dup) + (seq![
                            (remaining[0].0, trimmed(remaining[0].1)),
                        ] + plan_dup(remaining.skip(1), used_set)));
                    }
                } else {
                    proof {
                        assert(!used_set.contains(trimmed(remaining[0].1)));
                    }
                    let ghost pre_usedvec = used@;
                    used.push(t.clone());
                    register.push(ActionHotkeyInput { id: entry.id.clone(), accelerator: t });
                    proof {
                        used_set = used_set.insert(trimmed(remaining[0].1));
                        assert(hk_views(register@) =~= hk_views(pre_reg).push(
                            (remaining[0].0, trimmed(remaining[0].1)),
                        ));
                        assert(hk_views(pre_reg).push((remaining[0].0, trimmed(remaining[0].1)))
                            + plan_reg(remaining.skip(1), used_set) =~= hk_views(pre_reg) + (seq![
                            (remaining[0].0, trimmed(remaining[0].1)),
                        ] + plan_reg(remaining.skip(1), used_set)));
                        assert(used@ == pre_usedvec.push(t));
                        assert forall|tt: Seq<char>|
                            used_set.contains(tt) <==> exists|m: int|
                                0 <= m < used@.len() && #[trigger] used@[m]@ == tt by {
                            if used_set.contains(tt) {
                                if tt == trimmed(remaining[0].1) {
                                    assert(used@[used@.len() - 1]@ == tt);
                                } else {
                                    assert(pre_used.contains(tt));
                                    let m = choose|m: int|
                                        0 <= m < pre_usedvec.len() && #[trigger] pre_usedvec[m]@
                                            == tt;
                                    assert(used@[m]@ == tt);
                                }
                            }
                            if exists|m: int|
                                0 <= m < used@.len() && #[trigger] used@[m]@ == tt {
                                let m = choose|m: int|
                                    0 <= m < used@.len() && #[trigger] used@[m]@ == tt;
                                if m < used@.len() - 1 {
                                    assert(pre_usedvec[m]@ == tt);
                                    assert(pre_used.contains(tt));
                                } else {
                                    assert(tt == t@);
                                }
                            }
                        }
                    }
                }
            },
        }
        i = i + 1;
    }
    proof {
        assert(all.skip(hotkeys@.len() as int) =~= Seq::<(Seq<char>, Seq<char>)>::empty());
        assert(hk_views(register@) + Seq::<(Seq<char>, Seq<char>)>::empty() =~= hk_views(
            register@,
        ));
        assert(hk_views(duplicates@) + Seq::<(Seq<char>, Seq<char>)>::empty() =~= hk_views(
            duplicates@,
        ));
    }
    (register, duplicates)
}

} // verus!
