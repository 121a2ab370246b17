//! The navigation controller: a two-panel (leaflet) view with named pages.
//! It shows exactly one of a fixed set of pages at a time and moves along an
//! implicit two-slot stack — home and the last-shown secondary page — under
//! directional transitions.  A binary toggle, not a general history stack.

use vstd::prelude::*;

use crate::errors::UnknownPageError;
use crate::resolver::NamedObject;

verus! {

/// The direction of a `navigate` transition.
#[derive(Clone, Copy, Debug, PartialEq, Eq, Structural)]
pub enum NavigationDirection {
    /// Towards the last-shown secondary page.
    Forward,
    /// Towards the home page.
    Back,
}

/// The abstract state of a navigation controller: the registered page
/// identifiers (the first is home), the identifier of the page currently
/// visible, and the last-shown secondary page, if any was ever shown.
#[verifier::ext_equal]
pub struct NavModel {
    /// The registered page identifiers; the first is the home page.
    pub pages: Seq<Seq<char>>,
    /// The identifier of the page currently visible.
    pub current: Seq<char>,
    /// The identifier of the last-shown secondary page, if one was shown.
    pub secondary: Option<Seq<char>>,
}

impl NavModel {
    /// The identifier of the home page.
    pub open spec fn home(self) -> Seq<char> {
        self.pages[0]
    }
}

/// The transition `show(id)`: if `id` is registered, the current pointer
/// moves to it, and a non-home `id` becomes the secondary slot; an
/// unregistered `id` leaves the state unchanged.
pub open spec fn show_trans(m: NavModel, id: Seq<char>) -> NavModel {
    if m.pages.contains(id) {
        NavModel {
            pages: m.pages,
            current: id,
            secondary: if id != m.home() {
                Some(id)
            } else {
                m.secondary
            },
        }
    } else {
        m
    }
}

/// The transition `navigate(direction)`: back always returns to the home
/// page; forward moves to the last-shown secondary page and is a no-op while
/// none was ever shown.
pub open spec fn navigate_trans(m: NavModel, direction: NavigationDirection) -> NavModel {
    match direction {
        NavigationDirection::Back => NavModel { current: m.home(), ..m },
        NavigationDirection::Forward => match m.secondary {
            Some(id) => NavModel { current: id, ..m },
            None => m,
        },
    }
}

/// A navigation controller over a resolved two-panel container.
#[derive(Debug)]
pub struct NavController {
    /// The handle of the container this controller drives.
    pub object: NamedObject,
    /// The registered pages; the first is the home page.
    pub pages: Vec<String>,
    /// The identifier of the page currently visible.
    pub current: String,
    /// The identifier of the last-shown secondary page, if one was shown.
    pub secondary: Option<String>,
}

impl View for NavController {
    type V = NavModel;

    open spec fn view(&self) -> NavModel {
        NavModel {
            pages: self.pages.deep_view(),
            current: self.current@,
            secondary: match self.secondary {
                Some(s) => Some(s@),
                None => None,
            },
        }
    }
}

impl NavController {
    /// Page identifiers are unique, exactly one registered page is current,
    /// and the secondary slot only ever holds a registered non-home page.
    pub open spec fn wf(self) -> bool {
        &&& self@.pages.len() > 0
        &&& forall|i: int, j: int|
            0 <= i < j < self@.pages.len() ==> self@.pages[i] != self@.pages[j]
        &&& self@.pages.contains(self@.current)
        &&& match self@.secondary {
            Some(id) => self@.pages.contains(id) && id != self@.home(),
            None => true,
        }
    }

    /// A controller over `object` whose only page, `home`, is visible.
    pub fn new(object: NamedObject, home: String) -> (r: NavController)
        ensures
            r.wf(),
            r.object == object,
            r@.pages == seq![home@],
            r@.current == home@,
            r@.secondary is None,
    {
        let ghost home_id: Seq<char> = home@;
        let mut pages: Vec<String> = Vec::new();
        let current = home.clone();
        pages.push(home);
        let r = NavController { object, pages, current, secondary: None };
        proof {
            assert(r.pages@.len() == 1);
            assert(r@.pages[0] == home_id);
            assert(r@.pages =~= seq![home_id]);
            assert(r@.pages[0] == r@.current);
            assert(r@.pages.contains(r@.current));
        }
        r
    }

    /// Registers `id` as a further page.  An identifier is inserted exactly
    /// once: registering a name twice is a programmer error, ruled out here
    /// rather than handled.
    pub fn add_page(&mut self, id: String)
        requires
            old(self).wf(),
            !old(self)@.pages.contains(id@),
        ensures
            final(self).wf(),
            final(self).object == old(self).object,
            final(self)@ == (NavModel { pages: old(self)@.pages.push(id@), ..old(self)@ }),
    {
        let ghost fresh_id: Seq<char> = id@;
        self.pages.push(id);
        proof {
            assert(self@.pages =~= old(self)@.pages.push(fresh_id));
            let k = choose|k: int|
                0 <= k < old(self)@.pages.len() && old(self)@.pages[k] == self@.current;
            assert(self@.pages[k] == self@.current);
            assert(self@.pages.contains(self@.current));
            match old(self)@.secondary {
                Some(s) => {
                    let k2 = choose|k2: int|
                        0 <= k2 < old(self)@.pages.len() && old(self)@.pages[k2] == s;
                    assert(self@.pages[k2] == s);
                    assert(self@.pages.contains(s));
                },
                None => {},
            }
            assert forall|i: int, j: int| 0 <= i < j < self@.pages.len() implies self@.pages[i]
                != self@.pages[j] by {
                if j == self@.pages.len() - 1 {
                    if self@.pages[i] == fresh_id {
                        assert(old(self)@.pages.contains(fresh_id));
                    }
                }
            }
            assert(self@ =~= (NavModel { pages: old(self)@.pages.push(fresh_id), ..old(self)@ }));
        }
    }

    /// Moves the current pointer to the already-registered page `id`, which
    /// becomes the secondary slot unless it is home.  Requesting an
    /// unregistered page fails and changes nothing.
    pub fn show(&mut self, id: &String) -> (r: Result<(), UnknownPageError>)
        requires
            old(self).wf(),
        ensures
            final(self).wf(),
            final(self).object == old(self).object,
            final(self)@ == show_trans(old(self)@, id@),
            r is Ok <==> old(self)@.pages.contains(id@),
            r matches Err(e) ==> e.id@ == id@,
    {
        let n = self.pages.len();
        let mut i: usize = 0;
        while i < n
            invariant
                n == self.pages@.len(),
                0 <= i <= n,
                *self == *old(self),
                old(self).wf(),
                forall|j: int| 0 <= j < i ==> self@.pages[j] != id@,
            decreases n - i,
        {
            if self.pages[i] == *id {
                proof {
                    assert(self@.pages[i as int] == id@);
                    assert(self@.pages.contains(id@));
                }
                let at_home = self.pages[0] == *id;
                self.current = id.clone();
                if !at_home {
                    self.secondary = Some(id.clone());
                }
                proof {
                    assert(old(self)@.pages.contains(id@));
                    assert(self@ =~= show_trans(old(self)@, id@));
                }
                return Ok(());
            }
            i = i + 1;
        }
        proof {
            assert(!old(self)@.pages.contains(id@));
            assert(self@ =~= show_trans(old(self)@, id@));
        }
        Err(UnknownPageError { id: id.clone() })
    }

    /// Moves along the two-slot stack: back to home, or forward to the
    /// last-shown secondary page.
    pub fn navigate(&mut self, direction: NavigationDirection)
        requires
            old(self).wf(),
        ensures
            final(self).wf(),
            final(self).object == old(self).object,
            final(self)@ == navigate_trans(old(self)@, direction),
    {
        match direction {
            NavigationDirection::Back => {
                let home = self.pages[0].clone();
                self.current = home;
                proof {
                    assert(self@.pages.contains(self@.current));
                    assert(self@ =~= navigate_trans(old(self)@, direction));
                }
            },
            NavigationDirection::Forward => {
                match &self.secondary {
                    Some(id) => {
                        let target = id.clone();
                        self.current = target;
                        proof {
                            assert(self@ =~= navigate_trans(old(self)@, direction));
                        }
                    },
                    None => {
                        proof {
                            assert(self@ =~= navigate_trans(old(self)@, direction));
                        }
                    },
                }
            },
        }
    }

    /// The identifier of the page currently visible.
    pub fn current_page(&self) -> (r: &String)
        ensures
            r@ == self@.current,
    {
        &self.current
    }
}

/// Navigating back immediately after showing any page returns to the home
/// page: the pages on the two-slot stack never change, and back always lands
/// on its first slot.
pub proof fn lemma_back_after_show(m: NavModel, id: Seq<char>)
    ensures
        navigate_trans(show_trans(m, id), NavigationDirection::Back).current == m.home(),
        navigate_trans(show_trans(m, id), NavigationDirection::Back).pages == m.pages,
{
}

/// Navigating back is idempotent: a second back without an intervening show
/// changes nothing, so the controller stays on the home page.
pub proof fn lemma_back_idempotent(m: NavModel)
    ensures
        navigate_trans(navigate_trans(m, NavigationDirection::Back), NavigationDirection::Back)
            == navigate_trans(m, NavigationDirection::Back),
{
    assert(navigate_trans(
        navigate_trans(m, NavigationDirection::Back),
        NavigationDirection::Back,
    ) =~= navigate_trans(m, NavigationDirection::Back));
}

} // verus!
