//! User-selectable options: the GUI theme and the PipeWire capture pipeline.

use vstd::prelude::*;
use crate::text::{ascii_lower, ascii_lowercase_is};

verus! {

/// GUI colour theme.
#[derive(Debug, Clone, Copy, PartialEq, Eq, Structural)]
pub enum ThemeType {
    Aero,
    AquaClassic,
    Blue,
    Classic,
    Dark,
    Greybird,
    HighContrast,
    Metro,
}

/// The themes in the order in which the GUI lists them.
pub open spec fn theme_list() -> Seq<ThemeType> {
    seq![
        ThemeType::Aero,
        ThemeType::AquaClassic,
        ThemeType::Blue,
        ThemeType::Classic,
        ThemeType::Dark,
        ThemeType::Greybird,
        ThemeType::HighContrast,
        ThemeType::Metro,
    ]
}

/// Position of a theme in `theme_list()`.
pub open spec fn theme_index(t: ThemeType) -> int {
    match t {
        ThemeType::Aero => 0,
        ThemeType::AquaClassic => 1,
        ThemeType::Blue => 2,
        ThemeType::Classic => 3,
        ThemeType::Dark => 4,
        ThemeType::Greybird => 5,
        ThemeType::HighContrast => 6,
        ThemeType::Metro => 7,
    }
}

/// Display name of a theme: the variant's own name.
pub open spec fn theme_name(t: ThemeType) -> Seq<char> {
    match t {
        ThemeType::Aero => "Aero"@,
        ThemeType::AquaClassic => "AquaClassic"@,
        ThemeType::Blue => "Blue"@,
        ThemeType::Classic => "Classic"@,
        ThemeType::Dark => "Dark"@,
        ThemeType::Greybird => "Greybird"@,
        ThemeType::HighContrast => "HighContrast"@,
        ThemeType::Metro => "Metro"@,
    }
}

/// `i` clamped into `[lo, hi]`.
pub open spec fn clamp_int(i: int, lo: int, hi: int) -> int {
    if i < lo {
        lo
    } else if i > hi {
        hi
    } else {
        i
    }
}

impl Default for ThemeType {
    fn default() -> (t: Self)
        ensures
            t == ThemeType::Greybird,
    {
        ThemeType::Greybird
    }
}

impl ThemeType {
    /// The theme's name, as shown in the theme chooser.
    pub fn name(&self) -> (s: String)
        ensures
            s@ == theme_name(*self),
    {
        let s = match self {
            ThemeType::Aero => "Aero",
            ThemeType::AquaClassic => "AquaClassic",
            ThemeType::Blue => "Blue",
            ThemeType::Classic => "Classic",
            ThemeType::Dark => "Dark",
            ThemeType::Greybird => "Greybird",
            ThemeType::HighContrast => "HighContrast",
            ThemeType::Metro => "Metro",
        };
        String::from_str(s)
    }

    /// Index of the theme in `themes()`.
    pub fn to_index(&self) -> (i: i32)
        ensures
            i == theme_index(*self),
            0 <= i < theme_list().len(),
            theme_list()[i as int] == *self,
    {
        match self {
            ThemeType::Aero => 0,
            ThemeType::AquaClassic => 1,
            ThemeType::Blue => 2,
            ThemeType::Classic => 3,
            ThemeType::Dark => 4,
            ThemeType::Greybird => 5,
            ThemeType::HighContrast => 6,
            ThemeType::Metro => 7,
        }
    }

    /// The theme at index `i` of `themes()`, with `i` clamped into the valid range.
    pub fn from_index(i: i32) -> (t: Self)
        ensures
            t == theme_list()[clamp_int(i as int, 0, theme_list().len() - 1)],
    {
        let themes = Self::themes();
        let j: usize = if i < 0 {
            0
        } else if i > 7 {
            7
        } else {
            i as usize
        };
        themes[j]
    }

    /// All themes, in the order the GUI lists them.
    pub fn themes() -> (v: Vec<ThemeType>)
        ensures
            v@ == theme_list(),
    {
        let v = vec![
            ThemeType::Aero,
            ThemeType::AquaClassic,
            ThemeType::Blue,
            ThemeType::Classic,
            ThemeType::Dark,
            ThemeType::Greybird,
            ThemeType::HighContrast,
            ThemeType::Metro,
        ];
        assert(v@ =~= theme_list());
        v
    }
}


/// Which GStreamer pipeline turns the compositor's screen-cast stream into
/// pixels the encoder can consume.
#[derive(Debug, Clone, Copy, PartialEq, Eq, Structural)]
pub enum PipewirePipeline {
    /// Try the direct path, fall back to the zero-copy and GL paths.
    Auto,
    /// Force `pipewiresrc -> appsink`.
    Direct,
    /// Force the GL DMA-BUF import path.
    Gl,
    /// Force zero-copy dmabuf import into the hardware encoder.
    Dmabuf,
    /// Force the GL download path pinned to a LINEAR modifier.
    LinearCpu,
}

/// The pipelines in the order in which the GUI lists them.
pub open spec fn pipeline_list() -> Seq<PipewirePipeline> {
    seq![
        PipewirePipeline::Auto,
        PipewirePipeline::Dmabuf,
        PipewirePipeline::LinearCpu,
        PipewirePipeline::Gl,
        PipewirePipeline::Direct,
    ]
}

/// Position of a pipeline in `pipeline_list()`.
pub open spec fn pipeline_index(p: PipewirePipeline) -> int {
    match p {
        PipewirePipeline::Auto => 0,
        PipewirePipeline::Dmabuf => 1,
        PipewirePipeline::LinearCpu => 2,
        PipewirePipeline::Gl => 3,
        PipewirePipeline::Direct => 4,
    }
}

/// Human-readable label of a pipeline.
pub open spec fn pipeline_name(p: PipewirePipeline) -> Seq<char> {
    match p {
        PipewirePipeline::Auto => "Auto"@,
        PipewirePipeline::Direct => "Direct"@,
        PipewirePipeline::Gl => "GL"@,
        PipewirePipeline::Dmabuf => "Zero-copy (DMA-BUF)"@,
        PipewirePipeline::LinearCpu => "Linear CPU"@,
    }
}

impl Default for PipewirePipeline {
    fn default() -> (p: Self)
        ensures
            p == PipewirePipeline::Auto,
    {
        PipewirePipeline::Auto
    }
}

impl PipewirePipeline {
    /// Human-readable label for the GUI dropdown.
    pub fn name(&self) -> (s: String)
        ensures
            s@ == pipeline_name(*self),
    {
        let s = match self {
            PipewirePipeline::Auto => "Auto",
            PipewirePipeline::Direct => "Direct",
            PipewirePipeline::Gl => "GL",
            PipewirePipeline::Dmabuf => "Zero-copy (DMA-BUF)",
            PipewirePipeline::LinearCpu => "Linear CPU",
        };
        String::from_str(s)
    }

    /// Index of the pipeline in `variants()`.
    pub fn to_index(&self) -> (i: i32)
        ensures
            i == pipeline_index(*self),
            0 <= i < pipeline_list().len(),
            pipeline_list()[i as int] == *self,
    {
        match self {
            PipewirePipeline::Auto => 0,
            PipewirePipeline::Dmabuf => 1,
            PipewirePipeline::LinearCpu => 2,
            PipewirePipeline::Gl => 3,
            PipewirePipeline::Direct => 4,
        }
    }

    /// The pipeline at index `i` of `variants()`, with `i` clamped into the valid range.
    pub fn from_index(i: i32) -> (p: Self)
        ensures
            p == pipeline_list()[clamp_int(i as int, 0, pipeline_list().len() - 1)],
    {
        let variants = Self::variants();
        let j: usize = if i < 0 {
            0
        } else if i > 4 {
            4
        } else {
            i as usize
        };
        variants[j]
    }

    /// All pipelines, in the order the GUI lists them.
    pub fn variants() -> (v: Vec<PipewirePipeline>)
        ensures
            v@ == pipeline_list(),
    {
        let v = vec![
            PipewirePipeline::Auto,
            PipewirePipeline::Dmabuf,
            PipewirePipeline::LinearCpu,
            PipewirePipeline::Gl,
            PipewirePipeline::Direct,
        ];
        assert(v@ =~= pipeline_list());
        v
    }
}

/// Every theme occurs exactly once in the theme list, and the index of a theme
/// is its position there.
pub proof fn theme_list_enumerates_every_theme(t: ThemeType)
    ensures
        theme_list().len() == 8,
        0 <= theme_index(t) < 8,
        theme_list()[theme_index(t)] == t,
        forall|i: int, j: int| 0 <= i < j < 8 ==> theme_list()[i] != theme_list()[j],
{
}

/// Converting a theme to its index and back gives the same theme.
pub proof fn theme_index_round_trip(t: ThemeType)
    ensures
        theme_list()[clamp_int(theme_index(t), 0, theme_list().len() - 1)] == t,
{
}

/// Converting an index to a theme and back gives the index clamped into range.
pub proof fn theme_from_index_round_trip(i: int)
    ensures
        theme_index(theme_list()[clamp_int(i, 0, theme_list().len() - 1)])
            == clamp_int(i, 0, theme_list().len() - 1),
{
}

/// Distinct themes have distinct names.
pub proof fn theme_names_distinct(a: ThemeType, b: ThemeType)
    requires
        a != b,
    ensures
        theme_name(a) != theme_name(b),
{
    reveal_strlit("Aero");
    reveal_strlit("AquaClassic");
    reveal_strlit("Blue");
    reveal_strlit("Classic");
    reveal_strlit("Dark");
    reveal_strlit("Greybird");
    reveal_strlit("HighContrast");
    reveal_strlit("Metro");
    assert(theme_name(a).len() != theme_name(b).len() || theme_name(a)[0] != theme_name(b)[0]
        || theme_name(a)[1] != theme_name(b)[1]);
}

/// Every pipeline occurs exactly once in the pipeline list, and the index of a
/// pipeline is its position there.
pub proof fn pipeline_list_enumerates_every_pipeline(p: PipewirePipeline)
    ensures
        pipeline_list().len() == 5,
        0 <= pipeline_index(p) < 5,
        pipeline_list()[pipeline_index(p)] == p,
        forall|i: int, j: int| 0 <= i < j < 5 ==> pipeline_list()[i] != pipeline_list()[j],
{
}

/// Converting a pipeline to its index and back gives the same pipeline.
pub proof fn pipeline_index_round_trip(p: PipewirePipeline)
    ensures
        pipeline_list()[clamp_int(pipeline_index(p), 0, pipeline_list().len() - 1)] == p,
{
}

/// Converting an index to a pipeline and back gives the index clamped into range.
pub proof fn pipeline_from_index_round_trip(i: int)
    ensures
        pipeline_index(pipeline_list()[clamp_int(i, 0, pipeline_list().len() - 1)])
            == clamp_int(i, 0, pipeline_list().len() - 1),
{
}

pub open spec fn lower(s: Seq<char>) -> Seq<char> {
    s.map_values(|c: char| ascii_lower(c))
}

pub open spec fn spec_pipeline_mode(override_value: Seq<char>, configured: PipewirePipeline) -> PipewirePipeline {
    let l = lower(override_value);
    if l == "direct"@ {
        PipewirePipeline::Direct
    } else if l == "gl"@ {
        PipewirePipeline::Gl
    } else if l == "dmabuf"@ {
        PipewirePipeline::Dmabuf
    } else if l == "linear-cpu"@ {
        PipewirePipeline::LinearCpu
    } else if l == "auto"@ {
        PipewirePipeline::Auto
    } else {
        configured
    }
}

/// The pipeline to use: an override naming a pipeline (`direct`, `gl`,
/// `dmabuf`, `linear-cpu` or `auto`, ASCII case ignored) wins over the
/// configured one; an empty or unknown override is ignored.
pub fn pipeline_mode(override_value: &str, configured: PipewirePipeline) -> (p: PipewirePipeline)
    ensures
        p == spec_pipeline_mode(override_value@, configured),
{
    if ascii_lowercase_is(override_value, "direct") {
        PipewirePipeline::Direct
    } else if ascii_lowercase_is(override_value, "gl") {
        PipewirePipeline::Gl
    } else if ascii_lowercase_is(override_value, "dmabuf") {
        PipewirePipeline::Dmabuf
    } else if ascii_lowercase_is(override_value, "linear-cpu") {
        PipewirePipeline::LinearCpu
    } else if ascii_lowercase_is(override_value, "auto") {
        PipewirePipeline::Auto
    } else {
        configured
    }
}

/// How a pipeline is tried.
#[derive(Debug, Clone, Copy, PartialEq, Eq, Structural)]
pub enum Attempt {
    /// Build it (a build failure is an error) and see whether it reaches the
    /// playing state in time; if not, go on with the next attempt.
    ProbeOrFail,
    /// Build it and see whether it reaches the playing state in time; if it
    /// cannot be built or does not play, go on with the next attempt.
    Probe,
    /// Build and start it; its failure is the recorder's failure.
    Start,
}

pub open spec fn spec_attempts(mode: PipewirePipeline, prefer_dmabuf: bool) -> Seq<
    (PipewirePipeline, Attempt),
> {
    match mode {
        PipewirePipeline::Auto => seq![(PipewirePipeline::Direct, Attempt::ProbeOrFail)] + (if prefer_dmabuf {
            seq![(PipewirePipeline::Dmabuf, Attempt::Probe)]
        } else {
            Seq::empty()
        }) + seq![
            (PipewirePipeline::LinearCpu, Attempt::Probe),
            (PipewirePipeline::Gl, Attempt::Start),
        ],
        _ => seq![(mode, Attempt::Start)],
    }
}

/// The pipelines to try, in order: a forced pipeline alone; `Auto` probes
/// the direct path, then (when the encoder can take dmabufs) the zero-copy
/// path, then the linear CPU path, and finally starts the GL path.
pub fn pipeline_attempts(mode: PipewirePipeline, prefer_dmabuf: bool) -> (v: Vec<(PipewirePipeline, Attempt)>)
    ensures
        v@ == spec_attempts(mode, prefer_dmabuf),
{
    let mut v: Vec<(PipewirePipeline, Attempt)> = Vec::new();
    match mode {
        PipewirePipeline::Auto => {
            v.push((PipewirePipeline::Direct, Attempt::ProbeOrFail));
            if prefer_dmabuf {
                v.push((PipewirePipeline::Dmabuf, Attempt::Probe));
            }
            v.push((PipewirePipeline::LinearCpu, Attempt::Probe));
            v.push((PipewirePipeline::Gl, Attempt::Start));
        },
        _ => {
            v.push((mode, Attempt::Start));
        },
    }
    assert(v@ =~= spec_attempts(mode, prefer_dmabuf));
    v
}

/// Every plan ends by starting a pipeline, and no earlier attempt starts one.
pub proof fn every_plan_ends_with_a_start(mode: PipewirePipeline, prefer_dmabuf: bool)
    ensures
        spec_attempts(mode, prefer_dmabuf).len() >= 1,
        spec_attempts(mode, prefer_dmabuf).last().1 == Attempt::Start,
        forall|i: int|
            0 <= i < spec_attempts(mode, prefer_dmabuf).len() - 1 ==> #[trigger] spec_attempts(
                mode,
                prefer_dmabuf,
            )[i].1 != Attempt::Start,
{
}

} // verus!
