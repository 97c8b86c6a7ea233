use vstd::prelude::*;
use vstd::slice::slice_to_vec;

use crate::assets::{spec_output_path, AssetDirectory};
use crate::domain::{CompressionResult, VideoThumbnail};
use crate::error::CompressError;
use crate::preset::{args_view, push_arg, resolve, spec_known_preset, spec_preset_args};
use crate::session::{EncoderInvocation, Session, SessionState};
use crate::timecode::spec_format_timestamp;

verus! {

// The facade over the whole pipeline.  Per request the shell: runs the
// janitor best-effort over the asset directory with the fixed TTL below,
// asks here for the invocation plan, spawns the encoder, feeds the session
// its output lines and exit status, and finally asks here again to turn the
// terminal session into the caller-visible result or diagnostic.

/// How long a generated file may sit in the asset directory before the
/// janitor reclaims it: 24 hours.
pub const JANITOR_TTL_MILLIS: u64 = 24 * 60 * 60 * 1000;

/// The argument list of a thumbnail run: a forced single-frame image
/// output, a degenerate compression.
pub open spec fn spec_thumbnail_args() -> Seq<Seq<char>> {
    seq!["-vframes"@, "1"@, "-f"@, "image2"@]
}

/// Plans one compression: resolves the preset and allocates a fresh output
/// path with the requested extension.
///
/// Fails exactly on an unknown preset name, leaving the directory
/// untouched; on success the invocation carries the caller's input path and
/// correlation id, the preset's arguments, and a collision-free output path.
pub fn plan_compression(
    assets: &mut AssetDirectory,
    input_path: &[u8],
    convert_to_extension: &[u8],
    preset_name: &str,
    video_id: Option<String>,
) -> (r: Result<EncoderInvocation, CompressError>)
    requires
        old(assets).next_token < u64::MAX,
    ensures
        r is Ok <==> spec_known_preset(preset_name@),
        r is Err ==> r->Err_0 == CompressError::UnknownPreset && *final(assets) == *old(assets),
        r is Ok ==> ({
            &&& r->Ok_0.input_path@ == input_path@
            &&& r->Ok_0.output_path matches Some(p) && p@ == spec_output_path(
                old(assets).root@,
                old(assets).next_token,
                convert_to_extension@,
            )
            &&& args_view(r->Ok_0.args@) == spec_preset_args(preset_name@)
            &&& r->Ok_0.args@.len() > 0
            &&& r->Ok_0.video_id == video_id
            &&& final(assets).root@ == old(assets).root@
            &&& final(assets).next_token == old(assets).next_token + 1
        }),
{
    match resolve(preset_name) {
        Err(e) => Err(e),
        Ok(resolved) => {
            let output = assets.allocate_output_path(convert_to_extension);
            Ok(EncoderInvocation {
                input_path: slice_to_vec(input_path),
                output_path: Some(output),
                args: resolved.args,
                video_id,
            })
        },
    }
}

/// Plans one thumbnail extraction: a single-frame image output beside the
/// other generated artifacts.
pub fn plan_thumbnail(assets: &mut AssetDirectory, input_path: &[u8]) -> (r: EncoderInvocation)
    requires
        old(assets).next_token < u64::MAX,
    ensures
        r.input_path@ == input_path@,
        r.output_path matches Some(p) && p@ == spec_output_path(
            old(assets).root@,
            old(assets).next_token,
            "jpg"@.map_values(|c: char| c as u8),
        ),
        args_view(r.args@) == spec_thumbnail_args(),
        r.video_id is None,
        final(assets).root@ == old(assets).root@,
        final(assets).next_token == old(assets).next_token + 1,
{
    let mut ext: Vec<u8> = Vec::new();
    ext.push(106u8);
    ext.push(112u8);
    ext.push(103u8);
    proof {
        reveal_strlit("jpg");
        assert(ext@ =~= "jpg"@.map_values(|c: char| c as u8));
    }
    let output = assets.allocate_output_path(ext.as_slice());
    let mut args: Vec<String> = Vec::new();
    push_arg(&mut args, "-vframes");
    push_arg(&mut args, "1");
    push_arg(&mut args, "-f");
    push_arg(&mut args, "image2");
    proof {
        assert(args_view(args@) =~= spec_thumbnail_args());
    }
    EncoderInvocation {
        input_path: slice_to_vec(input_path),
        output_path: Some(output),
        args,
        video_id: None,
    }
}

/// Plans one duration probe: a metadata-only run with no output file, whose
/// duration the session reads off the diagnostic stream.
pub fn plan_duration_probe(input_path: &[u8]) -> (r: EncoderInvocation)
    ensures
        r.input_path@ == input_path@,
        r.output_path is None,
        r.args@.len() == 0,
        r.video_id is None,
{
    EncoderInvocation {
        input_path: slice_to_vec(input_path),
        output_path: None,
        args: Vec::new(),
        video_id: None,
    }
}

/// A terminal session is consistent: a succeeded run has a declared output
/// and a positive output size.
pub open spec fn spec_succeeded_wf(s: Session) -> bool {
    s.state == SessionState::Succeeded ==> (s.output_size matches Some(n) && n > 0)
        && s.invocation.output_path is Some
}

/// Turns a settled compression session into the caller's result.
///
/// Exactly a succeeded session yields a `CompressionResult`, carrying the
/// invocation's output path, the measured output size, the duration the
/// encoder reported, and the original size for the delta; anything else
/// yields the session's failure class — the cancellation, the spawn
/// failure, or the runtime failure.
pub fn complete_compression(session: &Session, original_size: u64) -> (r: Result<
    CompressionResult,
    CompressError,
>)
    requires
        session.state != SessionState::Created,
        session.state != SessionState::Running,
        spec_succeeded_wf(*session),
    ensures
        r is Ok <==> session.state == SessionState::Succeeded,
        r is Ok ==> ({
            &&& session.invocation.output_path matches Some(p) && r->Ok_0.output_path@ == p@
            &&& session.output_size matches Some(n) && r->Ok_0.output_size == n
            &&& r->Ok_0.output_size > 0
            &&& r->Ok_0.duration_millis == session.duration_millis
            &&& r->Ok_0.original_size == original_size
        }),
        session.state != SessionState::Succeeded ==> r is Err && r->Err_0
            == session.spec_failure_kind(),
{
    match self_state(session) {
        SessionState::Succeeded => {
            let path: Vec<u8> = match &session.invocation.output_path {
                Some(p) => slice_to_vec(p.as_slice()),
                None => Vec::new(),
            };
            let size: u64 = match session.output_size {
                Some(n) => n,
                None => 0,
            };
            Ok(CompressionResult {
                output_path: path,
                output_size: size,
                duration_millis: session.duration_millis,
                original_size,
            })
        },
        SessionState::Cancelled => Err(CompressError::Cancelled),
        _ => if session.spawn_failed {
            Err(CompressError::ProcessSpawnFailure)
        } else {
            Err(CompressError::EncoderRuntimeFailure)
        },
    }
}

/// The session's state, copied out.
fn self_state(session: &Session) -> (s: SessionState)
    ensures
        s == session.state,
{
    session.state
}

/// Turns a settled thumbnail session into the caller's result, attaching
/// the pixel dimensions the shell probed from the generated image.
pub fn complete_thumbnail(session: &Session, width: u32, height: u32) -> (r: Result<
    VideoThumbnail,
    CompressError,
>)
    requires
        session.state != SessionState::Created,
        session.state != SessionState::Running,
        spec_succeeded_wf(*session),
    ensures
        r is Ok <==> session.state == SessionState::Succeeded,
        r is Ok ==> ({
            &&& session.invocation.output_path matches Some(p) && r->Ok_0.image_path@ == p@
            &&& r->Ok_0.width == width
            &&& r->Ok_0.height == height
        }),
        session.state != SessionState::Succeeded ==> r is Err && r->Err_0
            == session.spec_failure_kind(),
{
    match self_state(session) {
        SessionState::Succeeded => {
            let path: Vec<u8> = match &session.invocation.output_path {
                Some(p) => slice_to_vec(p.as_slice()),
                None => Vec::new(),
            };
            Ok(VideoThumbnail { image_path: path, width, height })
        },
        SessionState::Cancelled => Err(CompressError::Cancelled),
        _ => if session.spawn_failed {
            Err(CompressError::ProcessSpawnFailure)
        } else {
            Err(CompressError::EncoderRuntimeFailure)
        },
    }
}

/// Turns a finished duration probe into the caller's answer.
///
/// A probe whose process could not be started is a hard failure; one that
/// ran but announced no parseable duration yields an absent value, not an
/// error; otherwise the duration is rendered as `HH:MM:SS.mmm`.
pub fn probe_outcome(spawned: bool, duration_millis: Option<u64>) -> (r: Result<
    Option<Vec<u8>>,
    CompressError,
>)
    requires
        duration_millis matches Some(d) ==> d < 360000000,
    ensures
        !spawned ==> r is Err && r->Err_0 == CompressError::ProcessSpawnFailure,
        spawned && duration_millis is None ==> (r matches Ok(o) && o is None),
        spawned && duration_millis is Some ==> (r matches Ok(o) && o matches Some(b) && b@
            == spec_format_timestamp(duration_millis->0 as nat)),
{
    if !spawned {
        return Err(CompressError::ProcessSpawnFailure);
    }
    match duration_millis {
        None => Ok(None),
        Some(d) => Ok(Some(crate::timecode::format_timestamp(d))),
    }
}

} // verus!
