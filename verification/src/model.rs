use vstd::prelude::*;

use crate::names::{
    lemma_stored_filename_shape, stored_filename_spec, wf_uuid,
};

verus! {

broadcast use vstd::set::group_set_axioms, vstd::map::group_map_axioms;

/// The abstract state of the service's two persistent stores: the
/// `pastes` table, keyed by canonical id and giving each row's on-disk
/// filename, and the storage directory, keyed by filename and giving each
/// file's bytes.
pub ghost struct ServiceState {
    pub pastes: Map<Seq<char>, Seq<char>>,
    pub files: Map<Seq<char>, Seq<u8>>,
}

/// A row is well formed when its id is a canonical UUID rendering and its
/// filename begins with exactly that id: the filename is `<id>` or
/// `<id>.<ext>`, so the id is always its first 36 characters.
pub open spec fn row_wf(id: Seq<char>, filename: Seq<char>) -> bool {
    &&& wf_uuid(id)
    &&& filename.len() >= 36
    &&& filename.subrange(0, 36) == id
}

/// The stores are aligned: every row's file exists, every file is some
/// row's, and the directory holds exactly as many files as the table
/// holds rows.
pub open spec fn inv(s: ServiceState) -> bool {
    &&& s.pastes.dom().finite()
    &&& s.files.dom().finite()
    &&& (forall|id: Seq<char>| #[trigger]
        s.pastes.dom().contains(id) ==> row_wf(id, s.pastes[id]))
    &&& (forall|id: Seq<char>| #[trigger]
        s.pastes.dom().contains(id) ==> s.files.dom().contains(s.pastes[id]))
    &&& (forall|f: Seq<char>| #[trigger]
        s.files.dom().contains(f) ==> exists|id: Seq<char>| #[trigger]
            s.pastes.dom().contains(id) && s.pastes[id] == f)
    &&& s.files.dom().len() == s.pastes.dom().len()
}

/// The stores as the service boots with them, before any paste exists.
pub open spec fn init_state() -> ServiceState {
    ServiceState { pastes: Map::empty(), files: Map::empty() }
}

/// What a GET of `/paste/<filename>` serves: the file's bytes, or nothing
/// (a 404) when no such file exists.
pub open spec fn serve(s: ServiceState, filename: Seq<char>) -> Option<Seq<u8>> {
    if s.files.dom().contains(filename) {
        Some(s.files[filename])
    } else {
        None
    }
}

/// The effect of one completed upload: the row and its file appear
/// together, the file holding exactly the uploaded bytes.
pub open spec fn upload_apply(
    s: ServiceState,
    id: Seq<char>,
    ext: Option<Seq<char>>,
    body: Seq<u8>,
) -> ServiceState {
    ServiceState {
        pastes: s.pastes.insert(id, stored_filename_spec(id, ext)),
        files: s.files.insert(stored_filename_spec(id, ext), body),
    }
}

/// Whether a delete for `id` finds a row — the atomic delete-and-return
/// round-trip answers 200 exactly when it does, and 404 otherwise.
pub open spec fn delete_found(s: ServiceState, id: Seq<char>) -> bool {
    s.pastes.dom().contains(id)
}

/// The effect of one completed delete: the row goes, and with it the file
/// the row named. A delete that finds no row changes nothing.
pub open spec fn delete_apply(s: ServiceState, id: Seq<char>) -> ServiceState {
    if s.pastes.dom().contains(id) {
        ServiceState { pastes: s.pastes.remove(id), files: s.files.remove(s.pastes[id]) }
    } else {
        s
    }
}

/// The service boots aligned: no rows, no files.
pub proof fn lemma_init_inv()
    ensures
        inv(init_state()),
{
    assert(init_state().pastes.dom() =~= Set::<Seq<char>>::empty());
    assert(init_state().files.dom() =~= Set::<Seq<char>>::empty());
}

/// A completed upload with a fresh id keeps the stores aligned and grows
/// both by exactly one entry. The id is fresh because it is drawn as a
/// random v4 UUID; the new file's name cannot collide with an existing
/// one either, since every filename begins with its row's id.
pub proof fn lemma_upload_preserves_inv(
    s: ServiceState,
    id: Seq<char>,
    ext: Option<Seq<char>>,
    body: Seq<u8>,
)
    requires
        inv(s),
        wf_uuid(id),
        !s.pastes.dom().contains(id),
    ensures
        inv(upload_apply(s, id, ext, body)),
        upload_apply(s, id, ext, body).pastes.dom().len() == s.pastes.dom().len() + 1,
        upload_apply(s, id, ext, body).files.dom().len() == s.files.dom().len() + 1,
{
    let fname = stored_filename_spec(id, ext);
    lemma_stored_filename_shape(id, ext);
    assert(fname.subrange(0, 36) =~= id);

    // The new filename is absent from the directory: an existing file with
    // the same name would belong to a row whose id is the name's first 36
    // characters, that is, to `id` itself — but `id` has no row yet.
    if s.files.dom().contains(fname) {
        let id2 = choose|id2: Seq<char>|
            #[trigger] s.pastes.dom().contains(id2) && s.pastes[id2] == fname;
        assert(row_wf(id2, fname));
        assert(id2 == id);
    }
    assert(!s.files.dom().contains(fname));

    let s2 = upload_apply(s, id, ext, body);
    assert(s2.pastes.dom() =~= s.pastes.dom().insert(id));
    assert(s2.files.dom() =~= s.files.dom().insert(fname));

    assert forall|f: Seq<char>| #[trigger] s2.files.dom().contains(f) implies exists|i: Seq<char>|
        #[trigger] s2.pastes.dom().contains(i) && s2.pastes[i] == f by {
        if f == fname {
            assert(s2.pastes.dom().contains(id) && s2.pastes[id] == f);
        } else {
            let i = choose|i: Seq<char>|
                #[trigger] s.pastes.dom().contains(i) && s.pastes[i] == f;
            assert(s2.pastes.dom().contains(i) && s2.pastes[i] == f);
        }
    }
}

/// A GET of the returned URL's filename, right after the upload, serves
/// exactly the uploaded bytes.
pub proof fn lemma_upload_round_trip(
    s: ServiceState,
    id: Seq<char>,
    ext: Option<Seq<char>>,
    body: Seq<u8>,
)
    ensures
        serve(upload_apply(s, id, ext, body), stored_filename_spec(id, ext)) == Some(body),
{
}

/// A completed delete of an existing row keeps the stores aligned and
/// shrinks both by exactly one entry; afterwards no row with that id
/// remains.
pub proof fn lemma_delete_preserves_inv(s: ServiceState, id: Seq<char>)
    requires
        inv(s),
        delete_found(s, id),
    ensures
        inv(delete_apply(s, id)),
        delete_apply(s, id).pastes.dom().len() == s.pastes.dom().len() - 1,
        delete_apply(s, id).files.dom().len() == s.files.dom().len() - 1,
        !delete_found(delete_apply(s, id), id),
{
    let fname = s.pastes[id];
    let s2 = delete_apply(s, id);
    assert(s2.pastes.dom() =~= s.pastes.dom().remove(id));
    assert(s2.files.dom() =~= s.files.dom().remove(fname));

    // A remaining row cannot name the removed file: filenames determine
    // ids, as each begins with its own row's id.
    assert forall|id2: Seq<char>| #[trigger] s2.pastes.dom().contains(id2) implies s2.files.dom()
        .contains(s2.pastes[id2]) by {
        assert(row_wf(id2, s.pastes[id2]));
        assert(row_wf(id, fname));
        if s.pastes[id2] == fname {
            assert(id2 == fname.subrange(0, 36) && id == fname.subrange(0, 36));
        }
    }
    assert forall|f: Seq<char>| #[trigger] s2.files.dom().contains(f) implies exists|i: Seq<char>|
        #[trigger] s2.pastes.dom().contains(i) && s2.pastes[i] == f by {
        let i = choose|i: Seq<char>| #[trigger] s.pastes.dom().contains(i) && s.pastes[i] == f;
        assert(row_wf(i, f));
        assert(row_wf(id, fname));
        if i == id {
            assert(f == fname);
        }
        assert(s2.pastes.dom().contains(i) && s2.pastes[i] == f);
    }
}

/// Two deletes for the same existing id, in whichever order the metadata
/// store serializes their atomic row-delete round-trips: the first finds
/// the row and answers 200, and the second then finds none and answers
/// 404 — exactly one of each.
pub proof fn lemma_delete_exactly_once(s: ServiceState, id: Seq<char>)
    requires
        inv(s),
        delete_found(s, id),
    ensures
        !delete_found(delete_apply(s, id), id),
        delete_apply(delete_apply(s, id), id) == delete_apply(s, id),
{
}

/// One completed request's effect on the stores: a successful upload or a
/// delete. An upload's id is guarded as fresh, which the random v4 draw
/// provides; a delete of an unknown id applies as no change.
pub ghost enum StoreOp {
    Upload { id: Seq<char>, ext: Option<Seq<char>>, body: Seq<u8> },
    Delete { id: Seq<char> },
}

/// Apply one completed request to the stores.
pub open spec fn apply_op(s: ServiceState, op: StoreOp) -> ServiceState {
    match op {
        StoreOp::Upload { id, ext, body } => if wf_uuid(id) && !s.pastes.dom().contains(id) {
            upload_apply(s, id, ext, body)
        } else {
            s
        },
        StoreOp::Delete { id } => delete_apply(s, id),
    }
}

/// Apply a sequence of completed requests in order.
pub open spec fn apply_ops(s: ServiceState, ops: Seq<StoreOp>) -> ServiceState
    decreases ops.len(),
{
    if ops.len() == 0 {
        s
    } else {
        apply_ops(apply_op(s, ops[0]), ops.drop_first())
    }
}

/// After any sequence of completed uploads and deletes the stores remain
/// aligned: the directory holds exactly one file per row of the pastes
/// table, and the two agree on every filename.
pub proof fn lemma_ops_preserve_inv(s: ServiceState, ops: Seq<StoreOp>)
    requires
        inv(s),
    ensures
        inv(apply_ops(s, ops)),
    decreases ops.len(),
{
    if ops.len() > 0 {
        match ops[0] {
            StoreOp::Upload { id, ext, body } => {
                if wf_uuid(id) && !s.pastes.dom().contains(id) {
                    lemma_upload_preserves_inv(s, id, ext, body);
                }
            },
            StoreOp::Delete { id } => {
                if delete_found(s, id) {
                    lemma_delete_preserves_inv(s, id);
                }
            },
        }
        lemma_ops_preserve_inv(apply_op(s, ops[0]), ops.drop_first());
    }
}

/// From boot onwards, any history of completed uploads and deletes leaves
/// the storage directory holding exactly one file per row of the pastes
/// table, the two agreeing on every filename.
pub proof fn lemma_service_history_aligned(ops: Seq<StoreOp>)
    ensures
        inv(apply_ops(init_state(), ops)),
{
    lemma_init_inv();
    lemma_ops_preserve_inv(init_state(), ops);
}

} // verus!
