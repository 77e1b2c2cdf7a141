//! The steps that replace a user's avatar or banner image: upload the new
//! image (if one was sent), store its key for the user, and remove whichever
//! image is no longer referenced. The store and the database are driven by the
//! caller, which performs each action and reports back what happened.

use vstd::prelude::*;
use crate::service::{DbFailure, RpcCode, RpcStatus};

verus! {

/// Which of a user's images a request replaces; also which store operation
/// removes an image.
#[derive(Debug, Clone, Copy, PartialEq, Eq)]
pub enum ImageKind {
    Avatar,
    Banner,
}

/// Where a replacement stands.
#[derive(Debug)]
pub enum ImageUpdate {
    /// The new image is being uploaded.
    AwaitingUpload { kind: ImageKind, user_id: i64 },
    /// The key (or its absence) is being stored for the user.
    AwaitingStore { kind: ImageKind, new_key: Option<String> },
    /// An image that is no longer referenced is being removed; the reply is decided.
    AwaitingRemoval { reply: Result<(), RpcStatus> },
    /// The reply has been given.
    Finished,
}

/// What happened to the last action.
#[derive(Debug)]
pub enum ImageEvent {
    /// The upload finished: the key it was stored under, or the status that
    /// the failure is answered with.
    Uploaded(Result<String, RpcStatus>),
    /// Storing the key finished: the key the user had before, or the failure.
    Stored(Result<Option<String>, DbFailure>),
    /// The removal finished; whether it succeeded does not matter.
    Removed,
}

/// What the caller is to do next.
#[derive(Debug)]
pub enum ImageAction {
    /// Upload `image` to the store of `kind`.
    Upload { kind: ImageKind, image: Vec<u8> },
    /// Set the user's `kind` image key to `key` (`None` clears it) and report the old key.
    StoreKey { kind: ImageKind, user_id: i64, key: Option<String> },
    /// Remove the object `key` with the removal of `kind`.
    Remove { kind: ImageKind, key: String },
    /// Answer the request.
    Reply(Result<(), RpcStatus>),
    /// The event does not belong to this step: nothing to do.
    Wait,
}

/// The failure answer with code `Unknown` and text `message`.
pub open spec fn unknown(message: String) -> RpcStatus {
    RpcStatus { code: RpcCode::Unknown, message }
}

/// The first step of a replacement: upload the new image if one was sent,
/// else clear the stored key.
pub open spec fn begin_spec(kind: ImageKind, user_id: i64, image: Option<Vec<u8>>) -> (ImageUpdate, ImageAction) {
    match image {
        Some(image) => (ImageUpdate::AwaitingUpload { kind, user_id }, ImageAction::Upload { kind, image }),
        None => (
            ImageUpdate::AwaitingStore { kind, new_key: None },
            ImageAction::StoreKey { kind, user_id, key: None },
        ),
    }
}

/// One step of a replacement. A failed upload is answered at once with the
/// status its failure was given. A failed
/// store removes the image just uploaded (with the removal of its own kind)
/// and is answered with the failure. A successful store removes the image the
/// user had before, always with the avatar removal, and is answered with
/// success. The outcome of a removal does not change the answer.
pub open spec fn step_spec(s: ImageUpdate, e: ImageEvent) -> (ImageUpdate, ImageAction) {
    match (s, e) {
        (ImageUpdate::AwaitingUpload { kind, user_id }, ImageEvent::Uploaded(Ok(key))) => (
            ImageUpdate::AwaitingStore { kind, new_key: Some(key) },
            ImageAction::StoreKey { kind, user_id, key: Some(key) },
        ),
        (ImageUpdate::AwaitingUpload { .. }, ImageEvent::Uploaded(Err(status))) => (
            ImageUpdate::Finished,
            ImageAction::Reply(Err(status)),
        ),
        (ImageUpdate::AwaitingStore { kind, new_key }, ImageEvent::Stored(Err(f))) => match new_key {
            Some(key) => (
                ImageUpdate::AwaitingRemoval { reply: Err(unknown(f.message)) },
                ImageAction::Remove { kind, key },
            ),
            None => (ImageUpdate::Finished, ImageAction::Reply(Err(unknown(f.message)))),
        },
        (ImageUpdate::AwaitingStore { .. }, ImageEvent::Stored(Ok(old_key))) => match old_key {
            Some(key) => (
                ImageUpdate::AwaitingRemoval { reply: Ok(()) },
                ImageAction::Remove { kind: ImageKind::Avatar, key },
            ),
            None => (ImageUpdate::Finished, ImageAction::Reply(Ok(()))),
        },
        (ImageUpdate::AwaitingRemoval { reply }, ImageEvent::Removed) => (
            ImageUpdate::Finished,
            ImageAction::Reply(reply),
        ),
        (s, _) => (s, ImageAction::Wait),
    }
}

/// The state after a sequence of events, and the actions asked for on the way.
pub open spec fn run_spec(s: ImageUpdate, events: Seq<ImageEvent>) -> (ImageUpdate, Seq<ImageAction>)
    decreases events.len(),
{
    if events.len() == 0 {
        (s, Seq::empty())
    } else {
        let (s1, a) = step_spec(s, events[0]);
        let (s2, rest) = run_spec(s1, events.drop_first());
        (s2, seq![a] + rest)
    }
}

/// A request with an image first uploads exactly that image to the store of
/// its kind, and once the upload gives key `key` the key is stored as the
/// `kind` image of the user who asked, whichever the kind. A request without
/// an image clears that user's key of that kind.
pub proof fn lemma_upload_is_stored_for_requester(kind: ImageKind, user_id: i64, image: Vec<u8>, key: String)
    ensures
        ({
            let (s, a) = begin_spec(kind, user_id, Some(image));
            &&& a == (ImageAction::Upload { kind, image })
            &&& step_spec(s, ImageEvent::Uploaded(Ok(key))).1 == (ImageAction::StoreKey { kind, user_id, key: Some(key) })
        }),
        begin_spec(kind, user_id, None).1 == (ImageAction::StoreKey { kind, user_id, key: None }),
{
}

/// A replacement whose upload and store both succeed stores the new key,
/// removes the image the user had before (if any), and answers with success.
pub proof fn lemma_replacement_succeeds(kind: ImageKind, user_id: i64, key: String, old_key: Option<String>)
    ensures
        ({
            let start = ImageUpdate::AwaitingUpload { kind, user_id };
            let stored = seq![ImageEvent::Uploaded(Ok(key)), ImageEvent::Stored(Ok(old_key))];
            match old_key {
                Some(old) => run_spec(start, stored.push(ImageEvent::Removed)) == (
                    ImageUpdate::Finished,
                    seq![
                        ImageAction::StoreKey { kind, user_id, key: Some(key) },
                        ImageAction::Remove { kind: ImageKind::Avatar, key: old },
                        ImageAction::Reply(Ok(())),
                    ],
                ),
                None => run_spec(start, stored) == (
                    ImageUpdate::Finished,
                    seq![ImageAction::StoreKey { kind, user_id, key: Some(key) }, ImageAction::Reply(Ok(()))],
                ),
            }
        }),
{
    reveal_with_fuel(run_spec, 4);
    let start = ImageUpdate::AwaitingUpload { kind, user_id };
    let stored = seq![ImageEvent::Uploaded(Ok(key)), ImageEvent::Stored(Ok(old_key))];
    let evs = match old_key { Some(_) => stored.push(ImageEvent::Removed), None => stored };
    assert(evs.drop_first().drop_first() =~= evs.subrange(2, evs.len() as int));
    let s1 = ImageUpdate::AwaitingStore { kind, new_key: Some(key) };
    assert(step_spec(start, evs[0]) == (s1, ImageAction::StoreKey { kind, user_id, key: Some(key) }));
    match old_key {
        Some(old) => {
            let rest = evs.drop_first();
            assert(rest.drop_first() =~= seq![ImageEvent::Removed]);
            assert(seq![ImageEvent::Removed].drop_first() =~= Seq::<ImageEvent>::empty());
            let r2 = run_spec(ImageUpdate::AwaitingRemoval { reply: Ok(()) }, rest.drop_first());
            assert(r2.1 =~= seq![ImageAction::Reply(Ok(()))]);
            let r1 = run_spec(s1, rest);
            assert(r1.1 =~= seq![ImageAction::Remove { kind: ImageKind::Avatar, key: old }, ImageAction::Reply(Ok(()))]);
            assert(run_spec(start, evs).1 =~= seq![
                ImageAction::StoreKey { kind, user_id, key: Some(key) },
                ImageAction::Remove { kind: ImageKind::Avatar, key: old },
                ImageAction::Reply(Ok(())),
            ]);
        },
        None => {
            let rest = evs.drop_first();
            assert(rest.drop_first() =~= Seq::<ImageEvent>::empty());
            let r1 = run_spec(s1, rest);
            assert(r1.1 =~= seq![ImageAction::Reply(Ok(()))]);
            assert(run_spec(start, evs).1 =~= seq![
                ImageAction::StoreKey { kind, user_id, key: Some(key) },
                ImageAction::Reply(Ok(())),
            ]);
        },
    }
}

/// When storing the new key fails, the image just uploaded is removed (with
/// the removal of its own kind) before the failure is answered, so no upload
/// is left behind that nothing refers to.
pub proof fn lemma_failed_store_removes_upload(kind: ImageKind, user_id: i64, key: String, failure: DbFailure)
    ensures
        run_spec(
            ImageUpdate::AwaitingUpload { kind, user_id },
            seq![ImageEvent::Uploaded(Ok(key)), ImageEvent::Stored(Err(failure)), ImageEvent::Removed],
        ) == (
            ImageUpdate::Finished,
            seq![
                ImageAction::StoreKey { kind, user_id, key: Some(key) },
                ImageAction::Remove { kind, key },
                ImageAction::Reply(Err(unknown(failure.message))),
            ],
        ),
{
    reveal_with_fuel(run_spec, 4);
    let evs = seq![ImageEvent::Uploaded(Ok(key)), ImageEvent::Stored(Err(failure)), ImageEvent::Removed];
    let rest = evs.drop_first();
    assert(rest =~= seq![ImageEvent::Stored(Err(failure)), ImageEvent::Removed]);
    assert(rest.drop_first() =~= seq![ImageEvent::Removed]);
    assert(rest.drop_first().drop_first() =~= Seq::<ImageEvent>::empty());
    let s1 = ImageUpdate::AwaitingStore { kind, new_key: Some(key) };
    let s2 = ImageUpdate::AwaitingRemoval { reply: Err(unknown(failure.message)) };
    assert(run_spec(s2, rest.drop_first()).1 =~= seq![ImageAction::Reply(Err(unknown(failure.message)))]);
    assert(run_spec(s1, rest).1 =~= seq![
        ImageAction::Remove { kind, key },
        ImageAction::Reply(Err(unknown(failure.message))),
    ]);
    assert(run_spec(ImageUpdate::AwaitingUpload { kind, user_id }, evs).1 =~= seq![
        ImageAction::StoreKey { kind, user_id, key: Some(key) },
        ImageAction::Remove { kind, key },
        ImageAction::Reply(Err(unknown(failure.message))),
    ]);
}

/// A failed upload is answered with its failure's status at once; no key is
/// stored and nothing is removed.
pub proof fn lemma_failed_upload_is_answered(kind: ImageKind, user_id: i64, status: RpcStatus)
    ensures
        run_spec(ImageUpdate::AwaitingUpload { kind, user_id }, seq![ImageEvent::Uploaded(Err(status))]) == (
            ImageUpdate::Finished,
            seq![ImageAction::Reply(Err(status))],
        ),
{
    reveal_with_fuel(run_spec, 2);
    let evs = seq![ImageEvent::Uploaded(Err(status))];
    assert(evs.drop_first() =~= Seq::<ImageEvent>::empty());
    assert(run_spec(ImageUpdate::AwaitingUpload { kind, user_id }, evs).1 =~= seq![ImageAction::Reply(Err(status))]);
}

/// A request without an image clears the user's key, removes the image the
/// user had (always with the avatar removal), and answers with success; if
/// clearing fails, nothing is removed and the failure is answered.
pub proof fn lemma_clearing_the_image(kind: ImageKind, user_id: i64, old_key: String, failure: DbFailure)
    ensures
        begin_spec(kind, user_id, None) == (
            ImageUpdate::AwaitingStore { kind, new_key: None },
            ImageAction::StoreKey { kind, user_id, key: None },
        ),
        run_spec(
            ImageUpdate::AwaitingStore { kind, new_key: None },
            seq![ImageEvent::Stored(Ok(Some(old_key))), ImageEvent::Removed],
        ) == (
            ImageUpdate::Finished,
            seq![ImageAction::Remove { kind: ImageKind::Avatar, key: old_key }, ImageAction::Reply(Ok(()))],
        ),
        run_spec(ImageUpdate::AwaitingStore { kind, new_key: None }, seq![ImageEvent::Stored(Err(failure))]) == (
            ImageUpdate::Finished,
            seq![ImageAction::Reply(Err(unknown(failure.message)))],
        ),
{
    reveal_with_fuel(run_spec, 3);
    let s0 = ImageUpdate::AwaitingStore { kind, new_key: None };
    let ok_evs = seq![ImageEvent::Stored(Ok(Some(old_key))), ImageEvent::Removed];
    assert(ok_evs.drop_first() =~= seq![ImageEvent::Removed]);
    assert(ok_evs.drop_first().drop_first() =~= Seq::<ImageEvent>::empty());
    let s1 = ImageUpdate::AwaitingRemoval { reply: Ok(()) };
    assert(run_spec(s1, ok_evs.drop_first()).1 =~= seq![ImageAction::Reply(Ok(()))]);
    assert(run_spec(s0, ok_evs).1 =~= seq![ImageAction::Remove { kind: ImageKind::Avatar, key: old_key }, ImageAction::Reply(Ok(()))]);
    let err_evs = seq![ImageEvent::Stored(Err(failure))];
    assert(err_evs.drop_first() =~= Seq::<ImageEvent>::empty());
    assert(run_spec(s0, err_evs).1 =~= seq![ImageAction::Reply(Err(unknown(failure.message)))]);
}

/// Once the answer is given, no further event asks for anything.
pub proof fn lemma_finished_is_final(events: Seq<ImageEvent>)
    ensures
        run_spec(ImageUpdate::Finished, events).0 == ImageUpdate::Finished,
        forall|i: int| 0 <= i < events.len() ==> #[trigger] run_spec(ImageUpdate::Finished, events).1[i] == ImageAction::Wait,
        run_spec(ImageUpdate::Finished, events).1.len() == events.len(),
    decreases events.len(),
{
    if events.len() > 0 {
        lemma_finished_is_final(events.drop_first());
        let rest = run_spec(ImageUpdate::Finished, events.drop_first()).1;
        assert forall|i: int| 0 <= i < events.len() implies #[trigger] run_spec(ImageUpdate::Finished, events).1[i] == ImageAction::Wait by {
            if i > 0 {
                assert(run_spec(ImageUpdate::Finished, events).1[i] == rest[i - 1]);
            }
        };
    }
}

impl ImageUpdate {
    /// Starts a replacement of the user's `kind` image with `image` (`None` removes it).
    pub fn begin(kind: ImageKind, user_id: i64, image: Option<Vec<u8>>) -> (r: (ImageUpdate, ImageAction))
        ensures
            r == begin_spec(kind, user_id, image),
    {
        match image {
            Some(image) => (ImageUpdate::AwaitingUpload { kind, user_id }, ImageAction::Upload { kind, image }),
            None => (
                ImageUpdate::AwaitingStore { kind, new_key: None },
                ImageAction::StoreKey { kind, user_id, key: None },
            ),
        }
    }

    /// Takes in what happened to the last action and says what to do next.
    pub fn step(self, event: ImageEvent) -> (r: (ImageUpdate, ImageAction))
        ensures
            r == step_spec(self, event),
    {
        match (self, event) {
            (ImageUpdate::AwaitingUpload { kind, user_id }, ImageEvent::Uploaded(Ok(key))) => {
                let stored = key.clone();
                (ImageUpdate::AwaitingStore { kind, new_key: Some(key) }, ImageAction::StoreKey { kind, user_id, key: Some(stored) })
            },
            (ImageUpdate::AwaitingUpload { .. }, ImageEvent::Uploaded(Err(status))) => (
                ImageUpdate::Finished,
                ImageAction::Reply(Err(status)),
            ),
            (ImageUpdate::AwaitingStore { kind, new_key }, ImageEvent::Stored(Err(f))) => match new_key {
                Some(key) => (
                    ImageUpdate::AwaitingRemoval { reply: Err(RpcStatus { code: RpcCode::Unknown, message: f.message }) },
                    ImageAction::Remove { kind, key },
                ),
                None => (
                    ImageUpdate::Finished,
                    ImageAction::Reply(Err(RpcStatus { code: RpcCode::Unknown, message: f.message })),
                ),
            },
            (ImageUpdate::AwaitingStore { .. }, ImageEvent::Stored(Ok(old_key))) => match old_key {
                Some(key) => (ImageUpdate::AwaitingRemoval { reply: Ok(()) }, ImageAction::Remove { kind: ImageKind::Avatar, key }),
                None => (ImageUpdate::Finished, ImageAction::Reply(Ok(()))),
            },
            (ImageUpdate::AwaitingRemoval { reply }, ImageEvent::Removed) => (ImageUpdate::Finished, ImageAction::Reply(reply)),
            (s, _) => (s, ImageAction::Wait),
        }
    }
}

} // verus!
