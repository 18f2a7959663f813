//! Where the helper executable lies: it is put on disk once, and the same
//! path is given out ever after.

use vstd::prelude::*;

verus! {

/// The path of the helper executable, once it has been put on disk.
#[derive(Debug)]
pub struct HelperSlot {
    path: Option<String>,
}

impl View for HelperSlot {
    type V = Option<Seq<char>>;

    closed spec fn view(&self) -> Option<Seq<char>> {
        match self.path {
            Some(path) => Some(path@),
            None => None,
        }
    }
}

impl HelperSlot {
    /// A slot that holds no path yet.
    pub fn new() -> (slot: HelperSlot)
        ensures
            slot@ is None,
    {
        HelperSlot { path: None }
    }
}

/// A result with the path by its view.
pub open spec fn path_view<E>(r: Result<String, E>) -> Result<Seq<char>, E> {
    match r {
        Ok(path) => Ok(path@),
        Err(e) => Err(e),
    }
}

/// What a slot becomes and gives out. A slot that holds a path keeps it and
/// gives it out. An empty slot goes by `made`, the outcome of putting the
/// helper on disk: a path is kept and given out, and a failure is passed on
/// with the slot left empty.
pub open spec fn provided<E>(slot: Option<Seq<char>>, made: Result<Seq<char>, E>) -> (
    Option<Seq<char>>,
    Result<Seq<char>, E>,
) {
    match slot {
        Some(path) => (slot, Ok(path)),
        None => match made {
            Ok(path) => (Some(path), Ok(path)),
            Err(e) => (None, Err(e)),
        },
    }
}

/// Once a path has been given out, the same path is given out ever after,
/// whatever a later attempt to put the helper on disk would come to.
pub proof fn helper_path_is_stable<E>(
    slot: Option<Seq<char>>,
    made: Result<Seq<char>, E>,
    later: Result<Seq<char>, E>,
)
    requires
        provided(slot, made).1 is Ok,
    ensures
        provided(provided(slot, made).0, later) == provided(slot, made),
{
}

/// Gives out the path of the helper executable. A slot that holds a path
/// gives it out as it is, and `extract` is not run. For an empty slot
/// `extract` puts the helper on disk, and its outcome decides.
pub fn ensure_helper_on_disk<E, F: FnOnce() -> Result<String, E>>(
    slot: &mut HelperSlot,
    extract: F,
) -> (r: Result<String, E>)
    requires
        extract.requires(()),
    ensures
        exists|made: Result<String, E>|
            #![trigger path_view(made)]
            (old(slot)@ is Some || extract.ensures((), made)) && (final(slot)@, path_view(r))
                == provided(old(slot)@, path_view(made)),
{
    match &slot.path {
        Some(path) => {
            let given = path.clone();
            let ghost same: Result<String, E> = Ok(given);
            assert((old(slot)@ is Some || extract.ensures((), same)) && (slot@, path_view(same))
                == provided(old(slot)@, path_view(same)));
            Ok(given)
        },
        None => {
            let made = extract();
            match made {
                Ok(path) => {
                    let given = path.clone();
                    let ghost kept: Result<String, E> = Ok(path);
                    slot.path = Some(path);
                    assert(extract.ensures((), kept) && (slot@, path_view(Ok::<String, E>(given)))
                        == provided(old(slot)@, path_view(kept)));
                    Ok(given)
                },
                Err(e) => {
                    let ghost failed: Result<String, E> = Err(e);
                    assert(extract.ensures((), failed) && (slot@, path_view(failed)) == provided(
                        old(slot)@,
                        path_view(failed),
                    ));
                    Err(e)
                },
            }
        },
    }
}

} // verus!
