use vstd::prelude::*;

use crate::error::CompressError;

verus! {

/// What a preset resolves to: the ordered encoder arguments controlling the
/// quality/format trade-off, and the container extension the preset targets.
pub struct EncoderArguments {
    pub args: Vec<String>,
    pub extension: String,
}

/// The views of an argument vector, element by element.
pub open spec fn args_view(args: Seq<String>) -> Seq<Seq<char>> {
    args.map_values(|s: String| s@)
}

/// Whether `name` is one of the process-wide, read-only presets.
pub open spec fn spec_known_preset(name: Seq<char>) -> bool {
    ||| name == "fast-mp4"@
    ||| name == "quality-mp4"@
    ||| name == "small-webm"@
}

/// The argument list a known preset resolves to.
pub open spec fn spec_preset_args(name: Seq<char>) -> Seq<Seq<char>> {
    if name == "fast-mp4"@ {
        seq!["-c:v"@, "libx264"@, "-preset"@, "veryfast"@, "-crf"@, "28"@, "-c:a"@, "aac"@]
    } else if name == "quality-mp4"@ {
        seq!["-c:v"@, "libx264"@, "-preset"@, "slow"@, "-crf"@, "18"@, "-c:a"@, "aac"@]
    } else {
        seq!["-c:v"@, "libvpx-vp9"@, "-crf"@, "33"@, "-b:v"@, "0"@, "-c:a"@, "libopus"@]
    }
}

/// The container extension of a known preset.
pub open spec fn spec_preset_extension(name: Seq<char>) -> Seq<char> {
    if name == "fast-mp4"@ || name == "quality-mp4"@ {
        "mp4"@
    } else {
        "webm"@
    }
}

/// String equality by content.
pub fn str_eq(a: &str, b: &str) -> (r: bool)
    ensures
        r == (a@ == b@),
{
    let a_owned: String = a.to_owned();
    let b_owned: String = b.to_owned();
    a_owned == b_owned
}

/// Appends one argument to an argument vector.
pub(crate) fn push_arg(v: &mut Vec<String>, s: &str)
    ensures
        args_view(final(v)@) == args_view(old(v)@).push(s@),
{
    let owned: String = s.to_owned();
    v.push(owned);
    proof {
        assert(args_view(v@) =~= args_view(old(v)@).push(s@));
    }
}

/// Maps a preset name to its encoder arguments.
///
/// Deterministic and side-effect free. Succeeds exactly on the known preset
/// names, and then returns a non-empty argument list; any other name is
/// rejected with [`CompressError::UnknownPreset`].
pub fn resolve(preset_name: &str) -> (r: Result<EncoderArguments, CompressError>)
    ensures
        r is Ok <==> spec_known_preset(preset_name@),
        r is Err ==> r->Err_0 == CompressError::UnknownPreset,
        r is Ok ==> args_view(r->Ok_0.args@) == spec_preset_args(preset_name@)
            && r->Ok_0.extension@ == spec_preset_extension(preset_name@)
            && r->Ok_0.args@.len() > 0,
{
    if str_eq(preset_name, "fast-mp4") {
        let mut args: Vec<String> = Vec::new();
        push_arg(&mut args, "-c:v");
        push_arg(&mut args, "libx264");
        push_arg(&mut args, "-preset");
        push_arg(&mut args, "veryfast");
        push_arg(&mut args, "-crf");
        push_arg(&mut args, "28");
        push_arg(&mut args, "-c:a");
        push_arg(&mut args, "aac");
        proof {
            assert(args_view(args@) =~= spec_preset_args(preset_name@));
        }
        Ok(EncoderArguments { args, extension: "mp4".to_owned() })
    } else if str_eq(preset_name, "quality-mp4") {
        let mut args: Vec<String> = Vec::new();
        push_arg(&mut args, "-c:v");
        push_arg(&mut args, "libx264");
        push_arg(&mut args, "-preset");
        push_arg(&mut args, "slow");
        push_arg(&mut args, "-crf");
        push_arg(&mut args, "18");
        push_arg(&mut args, "-c:a");
        push_arg(&mut args, "aac");
        proof {
            assert(args_view(args@) =~= spec_preset_args(preset_name@));
        }
        Ok(EncoderArguments { args, extension: "mp4".to_owned() })
    } else if str_eq(preset_name, "small-webm") {
        let mut args: Vec<String> = Vec::new();
        push_arg(&mut args, "-c:v");
        push_arg(&mut args, "libvpx-vp9");
        push_arg(&mut args, "-crf");
        push_arg(&mut args, "33");
        push_arg(&mut args, "-b:v");
        push_arg(&mut args, "0");
        push_arg(&mut args, "-c:a");
        push_arg(&mut args, "libopus");
        proof {
            assert(args_view(args@) =~= spec_preset_args(preset_name@));
        }
        Ok(EncoderArguments { args, extension: "webm".to_owned() })
    } else {
        Err(CompressError::UnknownPreset)
    }
}

} // verus!
