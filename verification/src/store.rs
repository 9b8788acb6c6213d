//! The store as a map from identifiers to bytes, and what the decisions of
//! the service come to on it.
//!
//! The program around this crate keeps objects in a backing namespace. Here
//! that namespace is a map, the actions of an upload are read as changes of
//! the map, and the laws of the service are proved of every such map.

use vstd::prelude::*;
use crate::download::{download_decision, download_reply};
use crate::error::Failure;
use crate::identifier::well_formed;
use crate::response::{bare, success, Content, StatusCode};
use crate::router::{download_prefix, index_path, resolve, Method};
use crate::service::{decide, Decision};
use crate::upload::{
    in_phase, is_final, upload_begin, upload_reply, upload_step, UploadInput, UploadOutput,
    UploadPhase, UploadState,
};

verus! {

/// The objects of a store, each under its name.
pub type Objects = Map<Seq<char>, Seq<u8>>;

/// One action of the upload under `id`.
pub struct Step {
    pub id: Seq<char>,
    pub output: UploadOutput,
}

/// The store after `step` has been performed: creating leaves an empty
/// object, writing appends to it, and no other action touches the store.
pub open spec fn perform(objects: Objects, step: Step) -> Objects {
    match step.output {
        UploadOutput::Create(_) => objects.insert(step.id, Seq::empty()),
        UploadOutput::Write(bytes) => if objects.contains_key(step.id) {
            objects.insert(step.id, objects[step.id] + bytes)
        } else {
            objects
        },
        _ => objects,
    }
}

/// The store after `steps` have been performed in order.
pub open spec fn perform_all(objects: Objects, steps: Seq<Step>) -> Objects
    decreases steps.len(),
{
    if steps.len() == 0 {
        objects
    } else {
        perform_all(perform(objects, steps.first()), steps.drop_first())
    }
}

/// The steps among `steps` that belong to the upload under `id`, in order.
pub open spec fn steps_of(steps: Seq<Step>, id: Seq<char>) -> Seq<Step>
    decreases steps.len(),
{
    if steps.len() == 0 {
        Seq::empty()
    } else if steps.first().id == id {
        seq![steps.first()] + steps_of(steps.drop_first(), id)
    } else {
        steps_of(steps.drop_first(), id)
    }
}

/// What comes of opening the object under `id` for reading.
pub open spec fn opening(objects: Objects, id: Seq<char>) -> Result<(), Failure> {
    if objects.contains_key(id) {
        Ok(())
    } else {
        Err(Failure::NotFound)
    }
}

/// What a download of `candidate` hands back: the bytes that its reply
/// carries, or nothing where the reply is that nothing was found.
pub open spec fn fetch(objects: Objects, candidate: Seq<char>) -> Option<Seq<u8>> {
    match download_decision(candidate) {
        Decision::Download(id) => match download_reply(id, opening(objects, id)).content {
            Content::Object(name) => Some(objects[name]),
            _ => None,
        },
        _ => None,
    }
}

/// A session that starts in `state` and is handed `inputs` in order: the
/// state it ends in, and the actions it names on the way.
pub open spec fn run(state: UploadState, inputs: Seq<UploadInput>) -> (
    UploadState,
    Seq<UploadOutput>,
)
    decreases inputs.len(),
{
    if inputs.len() == 0 {
        (state, Seq::empty())
    } else {
        let (next, output) = upload_step(state, inputs.first());
        let (last, outputs) = run(next, inputs.drop_first());
        (last, seq![output] + outputs)
    }
}

/// The chunks of a body as the events of their arrival, closed by the end
/// of the body.
pub open spec fn arrivals(chunks: Seq<Seq<u8>>) -> Seq<UploadInput> {
    Seq::new(chunks.len(), |i: int| UploadInput::Chunk(chunks[i])) + seq![UploadInput::End]
}

/// What an upload under `id` is handed when nothing fails: the opening of
/// its target, then the chunks of the body and its end.
pub open spec fn unbroken(chunks: Seq<Seq<u8>>) -> Seq<UploadInput> {
    seq![UploadInput::Opened] + arrivals(chunks)
}

/// The writing of `chunks` in order, closed by the commit under `id`.
pub open spec fn writes(id: Seq<char>, chunks: Seq<Seq<u8>>) -> Seq<UploadOutput> {
    Seq::new(chunks.len(), |i: int| UploadOutput::Write(chunks[i])) + seq![
        UploadOutput::Commit(id),
    ]
}

/// The actions `outputs` as steps of the upload under `id`.
pub open spec fn steps_under(id: Seq<char>, outputs: Seq<UploadOutput>) -> Seq<Step> {
    Seq::new(outputs.len(), |i: int| Step { id, output: outputs[i] })
}

/// Every step of an upload of `chunks` under `id` that meets no failure,
/// from the creation of its target to its commit.
pub open spec fn upload_steps(id: Seq<char>, chunks: Seq<Seq<u8>>) -> Seq<Step> {
    steps_under(
        id,
        seq![upload_begin(id).1] + run(upload_begin(id).0, unbroken(chunks)).1,
    )
}

/// A session that is writing hands every chunk out for writing, unchanged
/// and in the order of arrival, and commits at the end of the body.
pub proof fn lemma_chunks_are_written_in_order(state: UploadState, chunks: Seq<Seq<u8>>)
    requires
        state.phase == UploadPhase::Writing,
    ensures
        run(state, arrivals(chunks)) == (
            in_phase(state, UploadPhase::Committed),
            writes(state.id, chunks),
        ),
    decreases chunks.len(),
{
    let inputs = arrivals(chunks);
    if chunks.len() == 0 {
        let committed = in_phase(state, UploadPhase::Committed);
        assert(inputs.drop_first() =~= Seq::<UploadInput>::empty());
        assert(run(committed, inputs.drop_first()).1 =~= Seq::<UploadOutput>::empty());
        assert(run(state, inputs).1 =~= writes(state.id, chunks));
    } else {
        let rest = chunks.drop_first();
        lemma_chunks_are_written_in_order(state, rest);
        assert(inputs.drop_first() =~= arrivals(rest));
        assert(seq![UploadOutput::Write(chunks.first())] + writes(state.id, rest) =~= writes(
            state.id,
            chunks,
        ));
    }
}

/// An upload that meets no failure asks for the next chunk once its target
/// is open, writes every chunk in order, and ends committed.
pub proof fn lemma_unbroken_upload_commits(id: Seq<char>, chunks: Seq<Seq<u8>>)
    ensures
        run(upload_begin(id).0, unbroken(chunks)) == (
            UploadState { id, phase: UploadPhase::Committed },
            seq![UploadOutput::Receive] + writes(id, chunks),
        ),
{
    let created = upload_begin(id).0;
    let writing = in_phase(created, UploadPhase::Writing);
    lemma_chunks_are_written_in_order(writing, chunks);
    assert(unbroken(chunks).drop_first() =~= arrivals(chunks));
}

/// Writing `chunks` to an object and committing leaves the object with what
/// it held before, followed by the chunks.
pub proof fn lemma_writes_append(objects: Objects, id: Seq<char>, chunks: Seq<Seq<u8>>)
    requires
        objects.contains_key(id),
    ensures
        perform_all(objects, steps_under(id, writes(id, chunks))) == objects.insert(
            id,
            objects[id] + chunks.flatten(),
        ),
    decreases chunks.len(),
{
    let steps = steps_under(id, writes(id, chunks));
    if chunks.len() == 0 {
        assert(steps.drop_first() =~= Seq::<Step>::empty());
        assert(perform_all(objects, steps.drop_first()) == objects);
        assert(objects[id] + chunks.flatten() =~= objects[id]);
        assert(objects.insert(id, objects[id]) =~= objects);
    } else {
        let rest = chunks.drop_first();
        let written = objects.insert(id, objects[id] + chunks.first());
        lemma_writes_append(written, id, rest);
        assert(steps.drop_first() =~= steps_under(id, writes(id, rest)));
        assert(written[id] + rest.flatten() =~= objects[id] + chunks.flatten());
        assert(written.insert(id, written[id] + rest.flatten()) =~= objects.insert(
            id,
            objects[id] + chunks.flatten(),
        ));
    }
}

/// An upload that meets no failure leaves, under its identifier, the bytes
/// of its body and nothing else, whatever the store held before.
pub proof fn lemma_upload_stores_the_body(objects: Objects, id: Seq<char>, chunks: Seq<Seq<u8>>)
    ensures
        perform_all(objects, upload_steps(id, chunks)) == objects.insert(id, chunks.flatten()),
{
    lemma_unbroken_upload_commits(id, chunks);
    let steps = upload_steps(id, chunks);
    let created = objects.insert(id, Seq::<u8>::empty());
    assert(steps.drop_first().drop_first() =~= steps_under(id, writes(id, chunks)));
    lemma_writes_append(created, id, chunks);
    assert(created[id] + chunks.flatten() =~= chunks.flatten());
    assert(created.insert(id, chunks.flatten()) =~= objects.insert(id, chunks.flatten()));
    assert(perform(objects, steps.first()) == created);
    assert(perform(created, steps.drop_first().first()) == created);
    assert(perform_all(created, steps.drop_first()) == perform_all(
        created,
        steps.drop_first().drop_first(),
    ));
}

/// Round trip. An upload that meets no failure commits, is answered with
/// its identifier as the whole body, and leaves an object that a download by
/// that identifier hands back byte for byte, however the bytes were cut into
/// chunks, and also where there were none.
pub proof fn lemma_round_trip(objects: Objects, id: Seq<char>, chunks: Seq<Seq<u8>>)
    requires
        well_formed(id),
    ensures
        run(upload_begin(id).0, unbroken(chunks)).0.phase == UploadPhase::Committed,
        run(upload_begin(id).0, unbroken(chunks)).1.last() == UploadOutput::Commit(id),
        upload_reply(Ok(id)) == success(id),
        fetch(perform_all(objects, upload_steps(id, chunks)), id) == Some(chunks.flatten()),
{
    lemma_unbroken_upload_commits(id, chunks);
    lemma_upload_stores_the_body(objects, id, chunks);
}

/// A path made of the download prefix and `candidate` is dispatched as the
/// download of `candidate`, whatever the candidate holds.
pub proof fn lemma_download_path(candidate: Seq<char>, fresh: Seq<char>)
    ensures
        decide(resolve(Method::Get, download_prefix() + candidate), fresh) == download_decision(
            candidate,
        ),
{
    let path = download_prefix() + candidate;
    reveal_strlit("/");
    reveal_strlit("/download/");
    assert(path.len() >= 10);
    assert(path != index_path());
    assert(download_prefix() =~= path.subrange(0, download_prefix().len() as int));
    assert(path.skip(download_prefix().len() as int) =~= candidate);
}

/// A download whose candidate has not the shape of an identifier is answered
/// at once that nothing was found: no object is asked for.
pub proof fn lemma_malformed_download_is_refused(candidate: Seq<char>, fresh: Seq<char>)
    requires
        !well_formed(candidate),
    ensures
        decide(resolve(Method::Get, download_prefix() + candidate), fresh) == Decision::Respond(
            bare(StatusCode::NotFound),
        ),
{
    lemma_download_path(candidate, fresh);
}

/// A download by an identifier under which the store holds nothing is
/// answered that nothing was found, and hands back no bytes.
pub proof fn lemma_missing_object_is_not_found(objects: Objects, id: Seq<char>, fresh: Seq<char>)
    requires
        well_formed(id),
        !objects.contains_key(id),
    ensures
        decide(resolve(Method::Get, download_prefix() + id), fresh) == Decision::Download(id),
        download_reply(id, opening(objects, id)) == bare(StatusCode::NotFound),
        fetch(objects, id) is None,
{
    lemma_download_path(id, fresh);
}

/// Uploads do not touch one another's bytes. Two stores that hold the same
/// under `id` still do so after the one has seen `steps` and the other only
/// those of `steps` that belong to the upload under `id`.
pub proof fn lemma_uploads_do_not_interfere(
    objects: Objects,
    alone: Objects,
    steps: Seq<Step>,
    id: Seq<char>,
)
    requires
        objects.contains_key(id) == alone.contains_key(id),
        objects.contains_key(id) ==> objects[id] == alone[id],
    ensures
        perform_all(objects, steps).contains_key(id) == perform_all(
            alone,
            steps_of(steps, id),
        ).contains_key(id),
        perform_all(objects, steps).contains_key(id) ==> perform_all(objects, steps)[id]
            == perform_all(alone, steps_of(steps, id))[id],
    decreases steps.len(),
{
    if steps.len() > 0 {
        let step = steps.first();
        if step.id == id {
            let own = steps_of(steps, id);
            assert(own.first() == step);
            assert(own.drop_first() =~= steps_of(steps.drop_first(), id));
            lemma_uploads_do_not_interfere(
                perform(objects, step),
                perform(alone, step),
                steps.drop_first(),
                id,
            );
        } else {
            lemma_uploads_do_not_interfere(perform(objects, step), alone, steps.drop_first(), id);
        }
    }
}

/// Uploads that run side by side keep their bytes apart. Let the steps of
/// any number of uploads be interleaved in any way. If those under `id` are,
/// in order, the steps of an upload of `chunks` that meets no failure, then a
/// download by `id` hands back the bytes of `chunks` and no others.
pub proof fn lemma_interleaved_upload_comes_back(
    objects: Objects,
    steps: Seq<Step>,
    id: Seq<char>,
    chunks: Seq<Seq<u8>>,
)
    requires
        well_formed(id),
        steps_of(steps, id) == upload_steps(id, chunks),
    ensures
        fetch(perform_all(objects, steps), id) == Some(chunks.flatten()),
{
    lemma_uploads_do_not_interfere(objects, objects, steps, id);
    lemma_upload_stores_the_body(objects, id, chunks);
}

/// No event moves an upload out of a final phase, and none makes it act.
pub proof fn lemma_final_phases_hold(state: UploadState, input: UploadInput)
    requires
        is_final(state.phase),
    ensures
        upload_step(state, input) == (state, UploadOutput::Nothing),
{
}

/// Whatever a session is handed, it keeps its identifier; and once its
/// phase is final it stays as it is and names no action but `Nothing`.
pub proof fn lemma_run_keeps_identifier(state: UploadState, inputs: Seq<UploadInput>)
    ensures
        run(state, inputs).0.id == state.id,
        run(state, inputs).1.len() == inputs.len(),
        is_final(state.phase) ==> run(state, inputs) == (
            state,
            Seq::new(inputs.len(), |i: int| UploadOutput::Nothing),
        ),
    decreases inputs.len(),
{
    if inputs.len() > 0 {
        let next = upload_step(state, inputs.first()).0;
        lemma_run_keeps_identifier(next, inputs.drop_first());
        if is_final(state.phase) {
            assert(run(state, inputs).1 =~= Seq::new(
                inputs.len(),
                |i: int| UploadOutput::Nothing,
            ));
        }
    } else {
        assert(run(state, inputs).1 =~= Seq::new(inputs.len(), |i: int| UploadOutput::Nothing));
    }
}

/// A failure ends the upload at once. A session that is not over and is
/// told of a failure aborts with that failure, and whatever it is handed
/// afterwards, it asks for nothing more: no chunk is written after it.
pub proof fn lemma_failure_ends_the_upload(
    state: UploadState,
    failure: Failure,
    later: Seq<UploadInput>,
)
    requires
        !is_final(state.phase),
    ensures
        run(state, seq![UploadInput::Failed(failure)] + later) == (
            in_phase(state, UploadPhase::Failed),
            seq![UploadOutput::Abort(failure)] + Seq::new(
                later.len(),
                |i: int| UploadOutput::Nothing,
            ),
        ),
{
    let inputs = seq![UploadInput::Failed(failure)] + later;
    assert(inputs.drop_first() =~= later);
    lemma_run_keeps_identifier(in_phase(state, UploadPhase::Failed), later);
}

/// An identifier is handed out by the one transition that ends a body whose
/// target is open, and it is the session's own.
pub proof fn lemma_commit_only_at_end(state: UploadState, input: UploadInput)
    requires
        upload_step(state, input).1 is Commit,
    ensures
        state.phase == UploadPhase::Writing,
        input is End,
        upload_step(state, input) == (
            in_phase(state, UploadPhase::Committed),
            UploadOutput::Commit(state.id),
        ),
{
}

} // verus!
