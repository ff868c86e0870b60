use vstd::prelude::*;
use vstd::string::{StrSliceExecFns, StringExecFns};
use crate::bitrate::PlannedBitrate;
use crate::text::{decimal, joined, push_decimal, push_string, push_text, texts};
use crate::types::app::AppConfig;
use crate::types::Preset;
use crate::utils::{shell_quote, shell_quoted};

verus! {

/// The filters that the options ask for, in the order in which they are
/// applied: first the frame rate, then the height.
pub open spec fn filter_chain(config: AppConfig) -> Seq<Seq<char>> {
    let rate = if config.frame_rate is Some {
        seq!["fps="@ + decimal(config.frame_rate.unwrap() as nat)]
    } else {
        Seq::empty()
    };
    let scale = if config.resolution is Some {
        seq!["scale=-1:"@ + decimal(config.resolution.unwrap().height() as nat)]
    } else {
        Seq::empty()
    };
    rate + scale
}

/// The filter option and its value; nothing where no filter applies.
pub open spec fn filter_args(config: AppConfig) -> Seq<Seq<char>> {
    if filter_chain(config).len() == 0 {
        Seq::empty()
    } else {
        seq!["-filter:v"@, joined(filter_chain(config), ","@)]
    }
}

/// The preset option and its value; nothing where no preset is chosen.
pub open spec fn preset_args(preset: Preset) -> Seq<Seq<char>> {
    match preset.name_spec() {
        Some(name) => seq!["-preset"@, name],
        None => Seq::empty(),
    }
}

/// The codec and bitrate options of both streams.
pub open spec fn stream_args(config: AppConfig, planned: PlannedBitrate) -> Seq<Seq<char>> {
    seq![
        "-c:v"@,
        config.encoder.codec_spec(),
        "-b:v"@,
        decimal(planned.video_bps as nat),
        "-c:a"@,
        "aac"@,
        "-b:a"@,
        decimal(planned.audio_bps as nat),
    ]
}

/// The arguments that the encoder is run with: the input, the filters,
/// the streams' codecs and bitrates, the preset, and last the output,
/// which is written over whatever is there.
pub open spec fn encoder_args(
    path: Seq<char>,
    output_path: Seq<char>,
    config: AppConfig,
    planned: PlannedBitrate,
) -> Seq<Seq<char>> {
    seq!["-i"@, path] + filter_args(config) + stream_args(config, planned) + preset_args(
        config.preset,
    ) + seq!["-y"@, output_path]
}

/// Builds the value of the filter option; empty where no filter applies.
fn filter_value(config: &AppConfig) -> (value: String)
    ensures
        filter_chain(*config).len() == 0 ==> value@.len() == 0,
        filter_chain(*config).len() > 0 ==> value@ == joined(filter_chain(*config), ","@)
            && value@.len() > 0,
{
    let ghost chain = filter_chain(*config);
    let mut value = String::new();
    let mut any = false;
    if let Some(rate) = config.frame_rate {
        value.append("fps=");
        push_decimal(&mut value, rate as u64);
        any = true;
        proof {
            reveal_strlit("fps=");
            assert(chain[0] =~= value@);
        }
    }
    if let Some(resolution) = config.resolution {
        let ghost before = value@;
        if any {
            value.append(",");
        }
        value.append("scale=-1:");
        push_decimal(&mut value, resolution.to_height() as u64);
        proof {
            reveal_strlit("scale=-1:");
            let piece = "scale=-1:"@ + decimal(resolution.height() as nat);
            assert(chain.last() == piece);
            if any {
                assert(chain.drop_last() =~= seq![before]);
                assert(joined(chain.drop_last(), ","@) == before);
                assert(value@ =~= before + ","@ + piece);
            } else {
                assert(value@ =~= piece);
            }
        }
        any = true;
    }
    value
}

/// Assembles the arguments of one encoder run.
pub fn build(path: &str, output_path: &str, config: &AppConfig, planned: &PlannedBitrate) -> (args:
    Vec<String>)
    ensures
        texts(args@) == encoder_args(path@, output_path@, *config, *planned),
{
    let mut args: Vec<String> = Vec::new();
    assert(texts(args@) =~= Seq::empty());
    push_text(&mut args, "-i");
    push_text(&mut args, path);
    let filters = filter_value(config);
    if filters.as_str().unicode_len() > 0 {
        push_text(&mut args, "-filter:v");
        push_string(&mut args, filters);
    }
    assert(texts(args@) =~= seq!["-i"@, path@] + filter_args(*config));
    let ghost head = texts(args@);
    push_text(&mut args, "-c:v");
    push_text(&mut args, config.encoder.codec_name());
    push_text(&mut args, "-b:v");
    let mut video = String::new();
    push_decimal(&mut video, planned.video_bps as u64);
    push_string(&mut args, video);
    push_text(&mut args, "-c:a");
    push_text(&mut args, "aac");
    push_text(&mut args, "-b:a");
    let mut audio = String::new();
    push_decimal(&mut audio, planned.audio_bps as u64);
    push_string(&mut args, audio);
    assert(texts(args@) =~= head + stream_args(*config, *planned));
    let ghost middle = texts(args@);
    if let Some(name) = config.preset.as_str() {
        push_text(&mut args, "-preset");
        push_text(&mut args, name);
    }
    assert(texts(args@) =~= middle + preset_args(config.preset));
    let ghost most = texts(args@);
    push_text(&mut args, "-y");
    push_text(&mut args, output_path);
    assert(texts(args@) =~= most + seq!["-y"@, output_path@]);
    args
}

/// The arguments, each shown as `shell_quote` shows it.
pub open spec fn quoted_args(args: Seq<Seq<char>>) -> Seq<Seq<char>> {
    args.map_values(|arg: Seq<char>| shell_quoted(arg))
}

/// The command as it is shown in the log: the encoder's name, then the
/// arguments, quoted where it is needed, with a space before each.
pub open spec fn command_line(args: Seq<Seq<char>>) -> Seq<char> {
    "ffmpeg "@ + joined(quoted_args(args), " "@)
}

/// Renders the command for display. What it returns is for a reader:
/// the encoder is run with the arguments themselves, never through a
/// shell.
pub fn render_command(args: &Vec<String>) -> (line: String)
    ensures
        line@ == command_line(texts(args@)),
{
    let mut joined_args = String::new();
    let mut i: usize = 0;
    while i < args.len()
        invariant
            i <= args.len(),
            joined_args@ == joined(quoted_args(texts(args@)).subrange(0, i as int), " "@),
        decreases args.len() - i,
    {
        let quoted = shell_quote(args[i].as_str());
        proof {
            let all = quoted_args(texts(args@));
            let next = all.subrange(0, i + 1);
            assert(next.drop_last() =~= all.subrange(0, i as int));
            assert(next.last() == quoted@);
        }
        if i > 0 {
            joined_args.append(" ");
        }
        joined_args.append(quoted.as_str());
        i += 1;
    }
    assert(quoted_args(texts(args@)).subrange(0, args.len() as int) =~= quoted_args(texts(args@)));
    let mut line = "ffmpeg ".to_string();
    line.append(joined_args.as_str());
    line
}

/// The line that announces the command in the log.
pub fn command_log_line(args: &Vec<String>) -> (line: String)
    ensures
        line@ == "Running command: "@ + command_line(texts(args@)),
{
    let mut line = "Running command: ".to_string();
    let command = render_command(args);
    line.append(command.as_str());
    line
}

/// The arguments that the probe tool is run with. They ask for the
/// bitrate of the first audio stream and for the duration, as bare
/// values, one on a line, in that order.
pub open spec fn probe_args_spec(path: Seq<char>) -> Seq<Seq<char>> {
    seq![
        "-v"@,
        "error"@,
        "-select_streams"@,
        "a:0"@,
        "-show_entries"@,
        "format=duration:stream=bit_rate"@,
        "-of"@,
        "default=noprint_wrappers=1:nokey=1"@,
        path,
    ]
}

pub fn probe_args(path: &str) -> (args: Vec<String>)
    ensures
        texts(args@) == probe_args_spec(path@),
{
    let mut args: Vec<String> = Vec::new();
    assert(texts(args@) =~= Seq::empty());
    push_text(&mut args, "-v");
    push_text(&mut args, "error");
    push_text(&mut args, "-select_streams");
    push_text(&mut args, "a:0");
    push_text(&mut args, "-show_entries");
    push_text(&mut args, "format=duration:stream=bit_rate");
    push_text(&mut args, "-of");
    push_text(&mut args, "default=noprint_wrappers=1:nokey=1");
    push_text(&mut args, path);
    assert(texts(args@) =~= probe_args_spec(path@));
    args
}

/// The characters that part the components of a path: the slash and
/// the backslash.
pub open spec fn is_separator(c: char) -> bool {
    c == '/' || c == '\\'
}

/// The point at `d` starts the extension of the path's last component:
/// no point and no separator follows it, and it is not the first
/// character of that component.
pub open spec fn is_extension_point(path: Seq<char>, d: int) -> bool {
    &&& 0 < d < path.len()
    &&& path[d] == '.'
    &&& !is_separator(path[d - 1])
    &&& forall|i: int| d < i < path.len() ==> path[i] != '.' && !is_separator(path[i])
}

/// The last component of the path has an extension.
pub open spec fn has_extension(path: Seq<char>) -> bool {
    exists|d: int| is_extension_point(path, d)
}

/// The path without the extension of its last component and without the
/// point before it; the path itself where there is no extension.
pub open spec fn stem(path: Seq<char>) -> Seq<char> {
    if has_extension(path) {
        path.subrange(0, choose|d: int| is_extension_point(path, d))
    } else {
        path
    }
}

/// Where the output of a job on `path` is written: beside the source,
/// with `compressed.mp4` in place of the source's extension.
pub open spec fn output_path_spec(path: Seq<char>) -> Seq<char> {
    stem(path) + ".compressed.mp4"@
}

proof fn extension_point_is_unique(path: Seq<char>, a: int, b: int)
    requires
        is_extension_point(path, a),
        is_extension_point(path, b),
    ensures
        a == b,
{
}

/// Derives the output path of a job from its source path.
pub fn output_path(path: &str) -> (out: String)
    ensures
        out@ == output_path_spec(path@),
{
    let len: usize = path.unicode_len();
    let mut point: Option<usize> = None;
    let mut at_start = true;
    let mut i: usize = 0;
    for c in it: path.chars()
        invariant
            it.seq() == path@,
            len == path@.len(),
            i == it.index(),
            i <= len,
            at_start <==> (i == 0 || is_separator(path@[i - 1])),
            point is Some ==> is_extension_point(path@.subrange(0, i as int), point.unwrap() as int),
            point is None ==> !has_extension(path@.subrange(0, i as int)),
    {
        let ghost before = path@.subrange(0, i as int);
        let ghost now = path@.subrange(0, i + 1);
        proof {
            assert(now[i as int] == c);
            assert forall|j: int| 0 <= j < i implies now[j] == before[j] by {}
        }
        if c == '/' || c == '\\' {
            point = None;
            at_start = true;
            proof {
                assert forall|d: int| !is_extension_point(now, d) by {
                    if 0 < d < i {
                        assert(is_separator(now[i as int]));
                    }
                }
            }
        } else if c == '.' {
            if at_start {
                point = None;
                proof {
                    assert forall|d: int| !is_extension_point(now, d) by {
                        if 0 < d < i {
                            assert(now[i as int] == '.');
                        }
                    }
                }
            } else {
                point = Some(i);
                assert(is_extension_point(now, i as int));
            }
            at_start = false;
        } else {
            proof {
                if point is Some {
                    let d = point.unwrap() as int;
                    assert(is_extension_point(before, d));
                    assert forall|j: int| d < j < now.len() implies now[j] != '.'
                        && !is_separator(now[j]) by {
                        if j < i {
                            assert(now[j] == before[j]);
                        }
                    }
                    assert(is_extension_point(now, d));
                } else {
                    assert forall|d: int| !is_extension_point(now, d) by {
                        if is_extension_point(now, d) {
                            assert forall|j: int| d < j < before.len() implies before[j] != '.'
                                && !is_separator(before[j]) by {
                                assert(now[j] == before[j]);
                            }
                            assert(is_extension_point(before, d));
                        }
                    }
                }
            }
            at_start = false;
        }
        i += 1;
    }
    assert(path@.subrange(0, len as int) =~= path@);
    let kept: usize = match point {
        Some(d) => {
            proof {
                extension_point_is_unique(
                    path@,
                    d as int,
                    choose|d: int| is_extension_point(path@, d),
                );
            }
            d
        },
        None => len,
    };
    let mut out = path.substring_char(0, kept).to_string();
    out.append(".compressed.mp4");
    out
}

} // verus!
