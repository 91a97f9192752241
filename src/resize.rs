//! Validation of resize requests, up to the point where the image processor
//! takes over.

use vstd::prelude::*;
use crate::args::{
    quality_error, quality_value, same_arg, take_quality, take_text, take_u32, text_arg_error,
    text_or, u32_arg_error, u32_value, ArgValue,
};
use crate::error::{ArgKey, ImageFnError};
use crate::resolve::{
    candidate_paths, tried, candidates_stay_under_root, first_existing, first_existing_index, first_existing_is_first,
    resolution, stays_under_root, views_of,
};

verus! {

/// Prepares resize requests for the site whose base directory it holds.
#[derive(Debug)]
pub struct ResizeImage {
    base_path: String,
}

/// The named arguments of a resize.
#[derive(Clone, Debug)]
pub struct ResizeArgs {
    /// The logical path of the image; required, a string.
    pub path: Option<ArgValue>,
    /// The target width; a non-negative integer that fits in 32 bits.
    pub width: Option<ArgValue>,
    /// The target height; a non-negative integer that fits in 32 bits.
    pub height: Option<ArgValue>,
    /// The resize operation; a string, `fill` where absent.
    pub op: Option<ArgValue>,
    /// The output format; a string, `auto` where absent.
    pub format: Option<ArgValue>,
    /// The encoding quality; an integer in `1..=100`.
    pub quality: Option<ArgValue>,
    /// The names of the arguments given besides these, none of which a
    /// resize accepts.
    pub unknown_keys: Vec<String>,
}

/// Validated resize parameters and the locations to try for the image, in
/// order.
#[derive(Clone, Debug)]
pub struct ResizePlan {
    pub path: String,
    pub width: Option<u32>,
    pub height: Option<u32>,
    pub op: String,
    pub format: String,
    pub quality: Option<u8>,
    pub candidates: Vec<String>,
}

/// A resize request ready for the image processor. `resolved_file` is the
/// existing location of the image, relative to the site's base directory.
#[derive(Clone, Debug)]
pub struct ResizeRequest {
    pub logical_path: String,
    pub resolved_file: String,
    pub width: Option<u32>,
    pub height: Option<u32>,
    pub op: String,
    pub format: String,
    pub quality: Option<u8>,
}

/// What a resize request holds, with strings as character sequences.
pub struct ResizeRequestView {
    pub logical_path: Seq<char>,
    pub resolved_file: Seq<char>,
    pub width: Option<u32>,
    pub height: Option<u32>,
    pub op: Seq<char>,
    pub format: Seq<char>,
    pub quality: Option<u8>,
}

impl View for ResizeRequest {
    type V = ResizeRequestView;

    open spec fn view(&self) -> ResizeRequestView {
        ResizeRequestView {
            logical_path: self.logical_path@,
            resolved_file: self.resolved_file@,
            width: self.width,
            height: self.height,
            op: self.op@,
            format: self.format@,
            quality: self.quality,
        }
    }
}

/// Where the processed image was stored and the URL it is served at.
#[derive(Clone, Debug)]
pub struct ResizeResponse {
    pub url: String,
    pub static_path: String,
}

impl ResizeResponse {
    /// The response for the output path and URL the processor handed back.
    pub fn from_processor(static_path: String, url: String) -> (r: Self)
        ensures
            r.static_path == static_path,
            r.url == url,
    {
        ResizeResponse { url, static_path }
    }
}

/// `fill`, the operation of a resize that names none.
pub open spec fn default_op() -> Seq<char> {
    seq!['f', 'i', 'l', 'l']
}

/// `auto`, the format of a resize that names none.
pub open spec fn default_format() -> Seq<char> {
    seq!['a', 'u', 't', 'o']
}

/// Why the arguments of a resize are refused, checked in order; the path is
/// looked at only once every argument is valid.
pub open spec fn resize_args_error(a: ResizeArgs) -> Option<ImageFnError> {
    if a.unknown_keys@.len() > 0 {
        Some(ImageFnError::UnknownArgument(a.unknown_keys@[0]))
    } else if a.path is None {
        Some(ImageFnError::MissingArgument(ArgKey::Path))
    } else if text_arg_error(a.path, ArgKey::Path) is Some {
        text_arg_error(a.path, ArgKey::Path)
    } else if u32_arg_error(a.width, ArgKey::Width) is Some {
        u32_arg_error(a.width, ArgKey::Width)
    } else if u32_arg_error(a.height, ArgKey::Height) is Some {
        u32_arg_error(a.height, ArgKey::Height)
    } else if text_arg_error(a.op, ArgKey::Op) is Some {
        text_arg_error(a.op, ArgKey::Op)
    } else if text_arg_error(a.format, ArgKey::Format) is Some {
        text_arg_error(a.format, ArgKey::Format)
    } else if quality_error(a.quality) is Some {
        quality_error(a.quality)
    } else {
        match resolution(text_or(a.path, Seq::empty())) {
            Err(e) => Some(e),
            Ok(_) => None,
        }
    }
}

/// The plan `p` is the one that valid arguments `a` call for.
pub open spec fn plan_fits(a: ResizeArgs, p: ResizePlan) -> bool {
    &&& p.path@ == text_or(a.path, Seq::empty())
    &&& p.width == u32_value(a.width)
    &&& p.height == u32_value(a.height)
    &&& p.op@ == text_or(a.op, default_op())
    &&& p.format@ == text_or(a.format, default_format())
    &&& p.quality == quality_value(a.quality)
    &&& views_of(p.candidates@) == tried(p.path@)
}

/// The request a plan gives, once it is known for each of its candidates
/// whether it exists.
pub open spec fn request_outcome(p: ResizePlan, exists: Seq<bool>) -> Result<
    ResizeRequestView,
    ImageFnError,
> {
    match first_existing(p.candidates@.len(), exists) {
        None => Err(ImageFnError::FileNotFound),
        Some(i) => Ok(
            ResizeRequestView {
                logical_path: p.path@,
                resolved_file: p.candidates@[i as int]@,
                width: p.width,
                height: p.height,
                op: p.op@,
                format: p.format@,
                quality: p.quality,
            },
        ),
    }
}

/// Two argument sets that hold the same values.
pub open spec fn same_resize_args(a: ResizeArgs, b: ResizeArgs) -> bool {
    &&& same_arg(a.path, b.path)
    &&& same_arg(a.width, b.width)
    &&& same_arg(a.height, b.height)
    &&& same_arg(a.op, b.op)
    &&& same_arg(a.format, b.format)
    &&& same_arg(a.quality, b.quality)
    &&& a.unknown_keys@ == b.unknown_keys@
}

impl ResizeImage {
    /// The base directory of the site.
    pub closed spec fn base_view(&self) -> Seq<char> {
        self.base_path@
    }

    pub fn new(base_path: String) -> (r: Self)
        ensures
            r.base_view() == base_path@,
    {
        Self { base_path }
    }

    /// The base directory of the site.
    pub fn base_path(&self) -> (r: &String)
        ensures
            r@ == self.base_view(),
    {
        &self.base_path
    }

    /// Validates the arguments of a resize, fills in the defaults and lists
    /// the locations to try for the image.
    pub fn plan(&self, args: ResizeArgs) -> (r: Result<ResizePlan, ImageFnError>)
        ensures
            match resize_args_error(args) {
                Some(e) => r matches Err(f) && f == e,
                None => r matches Ok(p) && plan_fits(args, p),
            },
    {
        if args.unknown_keys.len() > 0 {
            return Err(ImageFnError::UnknownArgument(args.unknown_keys[0].clone()));
        }
        let path = match take_text(args.path, ArgKey::Path) {
            Ok(Some(p)) => p,
            Ok(None) => {
                return Err(ImageFnError::MissingArgument(ArgKey::Path));
            },
            Err(e) => {
                return Err(e);
            },
        };
        let width = match take_u32(args.width, ArgKey::Width) {
            Ok(w) => w,
            Err(e) => {
                return Err(e);
            },
        };
        let height = match take_u32(args.height, ArgKey::Height) {
            Ok(h) => h,
            Err(e) => {
                return Err(e);
            },
        };
        proof {
            reveal_strlit("fill");
            reveal_strlit("auto");
            assert("fill"@ =~= default_op());
            assert("auto"@ =~= default_format());
        }
        let op = match take_text(args.op, ArgKey::Op) {
            Ok(Some(o)) => o,
            Ok(None) => "fill".to_owned(),
            Err(e) => {
                return Err(e);
            },
        };
        let format = match take_text(args.format, ArgKey::Format) {
            Ok(Some(f)) => f,
            Ok(None) => "auto".to_owned(),
            Err(e) => {
                return Err(e);
            },
        };
        let quality = match take_quality(args.quality) {
            Ok(q) => q,
            Err(e) => {
                return Err(e);
            },
        };
        match candidate_paths(path.as_str()) {
            Ok(candidates) => Ok(ResizePlan { path, width, height, op, format, quality, candidates }),
            Err(e) => Err(e),
        }
    }

    /// Builds the request for the processor once it is known, for each
    /// candidate of the plan, whether it exists; a missing file is an error.
    pub fn request(&self, plan: ResizePlan, exists: &Vec<bool>) -> (r: Result<
        ResizeRequest,
        ImageFnError,
    >)
        ensures
            match (r, request_outcome(plan, exists@)) {
                (Ok(q), Ok(v)) => q@ == v,
                (Err(ImageFnError::FileNotFound), Err(ImageFnError::FileNotFound)) => true,
                _ => false,
            },
    {
        let found = first_existing_index(plan.candidates.len(), exists);
        proof {
            first_existing_is_first(plan.candidates@.len(), exists@);
        }
        match found {
            Some(i) => Ok(
                ResizeRequest {
                    resolved_file: plan.candidates[i].clone(),
                    logical_path: plan.path,
                    width: plan.width,
                    height: plan.height,
                    op: plan.op,
                    format: plan.format,
                    quality: plan.quality,
                },
            ),
            None => Err(ImageFnError::FileNotFound),
        }
    }
}

/// Resize arguments that hold the same values are refused alike or give
/// plans that, on the same existing files, give the same request; the
/// processor, which derives its output path and URL from the request alone,
/// then hands back the same output path and URL.
pub proof fn resize_is_deterministic(
    a: ResizeArgs,
    b: ResizeArgs,
    pa: ResizePlan,
    pb: ResizePlan,
    exists: Seq<bool>,
)
    requires
        same_resize_args(a, b),
    ensures
        resize_args_error(a) == resize_args_error(b),
        resize_args_error(a) is None && plan_fits(a, pa) && plan_fits(b, pb) ==> request_outcome(
            pa,
            exists,
        ) == request_outcome(pb, exists),
{
    if resize_args_error(a) is None && plan_fits(a, pa) && plan_fits(b, pb) {
        assert(pa.path@ == pb.path@);
        let n = tried(pa.path@).len();
        assert(pa.candidates@.len() == n);
        assert(pb.candidates@.len() == n);
        first_existing_is_first(n, exists);
        match first_existing(n, exists) {
            Some(i) => {
                assert(views_of(pa.candidates@)[i as int] == pa.candidates@[i as int]@);
                assert(views_of(pb.candidates@)[i as int] == pb.candidates@[i as int]@);
            },
            None => {},
        }
    }
}

/// The file a resize request names lies within the content root, the static
/// root or the base directory.
pub proof fn resized_file_stays_under_root(a: ResizeArgs, p: ResizePlan, exists: Seq<bool>)
    requires
        resize_args_error(a) is None,
        plan_fits(a, p),
    ensures
        request_outcome(p, exists) matches Ok(v) ==> stays_under_root(v.resolved_file),
{
    candidates_stay_under_root(p.path@);
    first_existing_is_first(p.candidates@.len(), exists);
    assert(resolution(p.path@) is Ok);
    if let Some(i) = first_existing(p.candidates@.len(), exists) {
        assert(views_of(p.candidates@)[i as int] == p.candidates@[i as int]@);
        assert(views_of(p.candidates@).len() == p.candidates@.len());
        assert(stays_under_root(tried(p.path@)[i as int]));
    }
}

} // verus!
