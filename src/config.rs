//! The base section of the render configuration and how it is read.
use vstd::prelude::*;
use vstd::string::StringExecFns;

verus! {

/// Which renderer a configuration asks for.
#[derive(Clone, Copy, PartialEq, Eq, Debug, Structural)]
pub enum RenderType {
    GI,
    Whitted,
}

/// The base section of a configuration, as written.
#[derive(Debug)]
pub struct Base {
    pub title: Option<String>,
    pub gpu: bool,
    pub render_type: String,
    pub width: u32,
    pub height: u32,
    pub frame_energy: Option<bool>,
    pub fisheye: Option<bool>,
}

/// The base section with its defaults applied.
#[derive(Debug)]
pub struct BaseParsed {
    pub title: Option<String>,
    pub gpu: bool,
    /// `None` asks to run the platform tests and exit.
    pub render_type: Option<RenderType>,
    pub w: u32,
    pub h: u32,
    pub frame_energy: bool,
    pub fisheye: bool,
}

/// Side of the frame used when the configuration gives 0.
pub const DEFAULT_SIZE: u32 = 1024;

/// What `str::to_lowercase` returns for a string.
pub uninterp spec fn lower_of(s: Seq<char>) -> Seq<char>;

/// Relies on `str::to_lowercase`: its result is a function of the string's
/// characters alone.
#[verifier::external_body]
fn lowercase(s: &str) -> (r: String)
    ensures
        r@ == lower_of(s@),
{
    s.to_lowercase()
}

/// The message of an unsupported render target.
pub open spec fn unsupported_message(target: Seq<char>) -> Seq<char> {
    "Target '"@ + target + "' is not supported!"@
}

/// The message of an unsupported render target, quoting it.
fn unsupported_target(target: &str) -> (r: String)
    ensures
        r@ == unsupported_message(target@),
{
    let mut m = String::from_str("Target '");
    m.append(target);
    m.append("' is not supported!");
    m
}

/// The render target that a lower-case target name selects: `Some(t)` for a
/// known name, `None` for an unknown one; a `t` of `None` is the test run.
pub open spec fn render_target(folded: Seq<char>) -> Option<Option<RenderType>> {
    if folded == "gi"@ {
        Some(Some(RenderType::GI))
    } else if folded == "whitted"@ {
        Some(Some(RenderType::Whitted))
    } else if folded == "test"@ {
        Some(None)
    } else {
        None
    }
}

/// A size from the configuration, 0 standing for the default.
pub open spec fn size_or_default(v: u32) -> u32 {
    if v == 0 {
        DEFAULT_SIZE
    } else {
        v
    }
}

/// Reads a lower-case render target name: `gi`, `whitted`, or `test`.
pub fn parse_render_type(folded: &String) -> (r: Option<Option<RenderType>>)
    ensures
        r == render_target(folded@),
{
    let gi = "gi".to_string();
    let whitted = "whitted".to_string();
    let test = "test".to_string();
    if *folded == gi {
        Some(Some(RenderType::GI))
    } else if *folded == whitted {
        Some(Some(RenderType::Whitted))
    } else if *folded == test {
        Some(None)
    } else {
        None
    }
}

impl Base {
    /// Applies the defaults: the target name is matched without regard to
    /// case, a zero width or height becomes 1024, and a missing flag is off.
    /// An unknown target name is an error that quotes it.
    pub fn parse(self) -> (r: Result<BaseParsed, String>)
        ensures
            r.is_ok() <==> render_target(lower_of(self.render_type@)).is_some(),
            r matches Ok(p) ==> {
                &&& Some(p.render_type) == render_target(lower_of(self.render_type@))
                &&& p.title == self.title
                &&& p.gpu == self.gpu
                &&& p.w == size_or_default(self.width)
                &&& p.h == size_or_default(self.height)
                &&& p.frame_energy == self.frame_energy.unwrap_or(false)
                &&& p.fisheye == self.fisheye.unwrap_or(false)
            },
            r matches Err(m) ==> m@ == unsupported_message(self.render_type@),
    {
        let folded = lowercase(self.render_type.as_str());
        let render_type = match parse_render_type(&folded) {
            Some(t) => t,
            None => return Err(unsupported_target(self.render_type.as_str())),
        };
        let w = if self.width == 0 {
            DEFAULT_SIZE
        } else {
            self.width
        };
        let h = if self.height == 0 {
            DEFAULT_SIZE
        } else {
            self.height
        };
        let frame_energy = self.frame_energy.unwrap_or(false);
        let fisheye = self.fisheye.unwrap_or(false);
        Ok(BaseParsed { title: self.title, gpu: self.gpu, render_type, w, h, frame_energy, fisheye })
    }
}

} // verus!
