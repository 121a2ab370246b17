//! The object resolver: looks up named UI elements in the parsed declarative
//! tree and checks them against the expected capability, failing loudly on a
//! missing name or a mismatched object.

use vstd::prelude::*;

use crate::errors::ResolutionError;

verus! {

/// The capability a resolved object is expected to have.
#[derive(Clone, Copy, Debug, PartialEq, Eq, Structural)]
pub enum ObjectKind {
    /// The top-level application window.
    Window,
    /// The two-panel navigation container.
    Leaflet,
    /// A clickable split-button trigger.
    SplitButton,
    /// A plain clickable trigger.
    Button,
    /// The surface that hosts transient notifications.
    ToastOverlay,
    /// A container that can be embedded as a page.
    Container,
}

/// One named object of the parsed declarative UI description.
#[derive(Debug)]
pub struct UiObject {
    /// The identifier the description gives the object.
    pub name: String,
    /// The capability of the object that stands under that identifier.
    pub kind: ObjectKind,
}

/// The parsed declarative UI description: a flat tree of named objects, as
/// the toolkit's builder reports it after consuming the embedded resource.
#[derive(Debug)]
pub struct UiTree {
    /// The named objects of the description, in document order.
    pub objects: Vec<UiObject>,
}

/// What a lookup of `name` finds in `objects`: the kind of the first object
/// carrying that identifier, or nothing.
pub open spec fn lookup_object(objects: Seq<UiObject>, name: Seq<char>) -> Option<ObjectKind>
    decreases objects.len(),
{
    if objects.len() == 0 {
        None
    } else if objects[0].name@ == name {
        Some(objects[0].kind)
    } else {
        lookup_object(objects.drop_first(), name)
    }
}

/// Whether `name` resolves in `tree` to an object of kind `kind`.
pub open spec fn resolves(tree: UiTree, name: Seq<char>, kind: ObjectKind) -> bool {
    lookup_object(tree.objects@, name) == Some(kind)
}

/// A typed, validated handle: a name resolved against the declarative tree
/// together with the capability the object was checked to have.
#[derive(Debug)]
pub struct NamedObject {
    /// The identifier the handle was resolved under.
    pub name: String,
    /// The capability the resolved object was checked to have.
    pub kind: ObjectKind,
}

impl NamedObject {
    /// A copy of this handle that is equal to it, field for field.
    pub fn duplicate(&self) -> (r: NamedObject)
        ensures
            r == *self,
    {
        NamedObject { name: self.name.clone(), kind: self.kind }
    }
}

/// Looks `name` up in the parsed declarative tree and checks the object
/// found against the expected capability.  Yields a correctly typed handle,
/// or fails with a resolution error naming the missing or mismatched
/// identifier; there is no defaulting and no silent coercion.
pub fn get_object(tree: &UiTree, name: &str, kind: ObjectKind) -> (r: Result<
    NamedObject,
    ResolutionError,
>)
    ensures
        r is Ok <==> resolves(*tree, name@, kind),
        r matches Ok(o) ==> o.name@ == name@ && o.kind == kind,
        r matches Err(e) ==> e.name@ == name@,
{
    let wanted: String = name.to_owned();
    let ghost all: Seq<UiObject> = tree.objects@;
    let n = tree.objects.len();
    let mut i: usize = 0;
    proof {
        assert(all.skip(0) =~= all);
    }
    while i < n
        invariant
            n == all.len(),
            0 <= i <= n,
            all == tree.objects@,
            wanted@ == name@,
            lookup_object(all, name@) == lookup_object(all.skip(i as int), name@),
        decreases n - i,
    {
        if tree.objects[i].name == wanted {
            proof {
                assert(all.skip(i as int)[0] == all[i as int]);
                assert(lookup_object(all.skip(i as int), name@) == Some(all[i as int].kind));
            }
            if tree.objects[i].kind == kind {
                return Ok(NamedObject { name: wanted, kind });
            } else {
                return Err(ResolutionError { name: wanted });
            }
        }
        proof {
            assert(all.skip(i as int)[0] == all[i as int]);
            assert(all.skip(i as int).drop_first() =~= all.skip(i + 1));
        }
        i = i + 1;
    }
    proof {
        assert(all.skip(n as int).len() == 0);
    }
    Err(ResolutionError { name: wanted })
}

} // verus!
