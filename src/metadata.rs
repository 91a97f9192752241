//! Looking up the size of an image named by a logical path.

use vstd::prelude::*;
use crate::args::{
    bool_arg_error, bool_or, take_bool, take_text, text_arg_error, text_or, ArgValue,
};
use crate::error::{ArgKey, ImageFnError};
use crate::resolve::{
    candidate_paths, tried, candidates_stay_under_root, first_existing, first_existing_index,
    first_existing_is_first, resolution, stays_under_root, views_of,
};

verus! {

/// Looks up image sizes for the site whose base directory it holds.
#[derive(Debug)]
pub struct GetImageMetadata {
    base_path: String,
}

/// The named arguments of a size lookup.
#[derive(Clone, Debug)]
pub struct MetadataArgs {
    /// The logical path of the image; required, a string.
    pub path: Option<ArgValue>,
    /// Whether a missing file gives no result rather than an error; a
    /// boolean, `false` where absent.
    pub allow_missing: Option<ArgValue>,
}

/// A validated size lookup and the locations to try for it, in order.
#[derive(Clone, Debug)]
pub struct MetadataPlan {
    pub path: String,
    pub allow_missing: bool,
    pub candidates: Vec<String>,
}

/// Why the arguments of a size lookup are refused, checked in order.
pub open spec fn metadata_args_error(a: MetadataArgs) -> Option<ImageFnError> {
    if a.path is None {
        Some(ImageFnError::MissingArgument(ArgKey::Path))
    } else if text_arg_error(a.path, ArgKey::Path) is Some {
        text_arg_error(a.path, ArgKey::Path)
    } else if bool_arg_error(a.allow_missing, ArgKey::AllowMissing) is Some {
        bool_arg_error(a.allow_missing, ArgKey::AllowMissing)
    } else {
        match resolution(text_or(a.path, Seq::empty())) {
            Err(e) => Some(e),
            Ok(_) => None,
        }
    }
}

/// The plan `p` is the one that valid arguments `a` call for.
pub open spec fn metadata_plan_fits(a: MetadataArgs, p: MetadataPlan) -> bool {
    &&& p.path@ == text_or(a.path, Seq::empty())
    &&& p.allow_missing == bool_or(a.allow_missing, false)
    &&& views_of(p.candidates@) == tried(p.path@)
}

/// What a size lookup finds, given for each of the plan's candidates whether
/// it exists: the first existing one; none where the lookup tolerates a
/// missing file; else `FileNotFound`.
pub open spec fn lookup_outcome(p: MetadataPlan, exists: Seq<bool>) -> Result<
    Option<Seq<char>>,
    ImageFnError,
> {
    match first_existing(p.candidates@.len(), exists) {
        Some(i) => Ok(Some(p.candidates@[i as int]@)),
        None => if p.allow_missing {
            Ok(None)
        } else {
            Err(ImageFnError::FileNotFound)
        },
    }
}

impl GetImageMetadata {
    /// The base directory of the site.
    pub closed spec fn base_view(&self) -> Seq<char> {
        self.base_path@
    }

    pub fn new(base_path: String) -> (r: Self)
        ensures
            r.base_view() == base_path@,
    {
        Self { base_path }
    }

    /// The base directory of the site.
    pub fn base_path(&self) -> (r: &String)
        ensures
            r@ == self.base_view(),
    {
        &self.base_path
    }

    /// Validates the arguments of a size lookup and lists the locations to
    /// try. Argument errors come before any path is resolved.
    pub fn plan(&self, args: MetadataArgs) -> (r: Result<MetadataPlan, ImageFnError>)
        ensures
            match metadata_args_error(args) {
                Some(e) => r matches Err(f) && f == e,
                None => r matches Ok(p) && metadata_plan_fits(args, p),
            },
    {
        let path = match take_text(args.path, ArgKey::Path) {
            Ok(Some(p)) => p,
            Ok(None) => {
                return Err(ImageFnError::MissingArgument(ArgKey::Path));
            },
            Err(e) => {
                return Err(e);
            },
        };
        let allow_missing = match take_bool(args.allow_missing, ArgKey::AllowMissing) {
            Ok(Some(b)) => b,
            Ok(None) => false,
            Err(e) => {
                return Err(e);
            },
        };
        match candidate_paths(path.as_str()) {
            Ok(candidates) => Ok(MetadataPlan { path, allow_missing, candidates }),
            Err(e) => Err(e),
        }
    }

    /// Settles a size lookup once it is known, for each candidate of the
    /// plan, whether it exists.
    pub fn locate(&self, plan: &MetadataPlan, exists: &Vec<bool>) -> (r: Result<
        Option<String>,
        ImageFnError,
    >)
        ensures
            match (r, lookup_outcome(*plan, exists@)) {
                (Ok(Some(s)), Ok(Some(t))) => s@ == t,
                (Ok(None), Ok(None)) => true,
                (Err(ImageFnError::FileNotFound), Err(ImageFnError::FileNotFound)) => true,
                _ => false,
            },
    {
        let found = first_existing_index(plan.candidates.len(), exists);
        proof {
            first_existing_is_first(plan.candidates@.len(), exists@);
        }
        match found {
            Some(i) => Ok(Some(plan.candidates[i].clone())),
            None => if plan.allow_missing {
                Ok(None)
            } else {
                Err(ImageFnError::FileNotFound)
            },
        }
    }
}

/// The file a size lookup reads lies within the content root, the static
/// root or the base directory.
pub proof fn located_file_stays_under_root(a: MetadataArgs, p: MetadataPlan, exists: Seq<bool>)
    requires
        metadata_args_error(a) is None,
        metadata_plan_fits(a, p),
    ensures
        lookup_outcome(p, exists) matches Ok(Some(f)) ==> stays_under_root(f),
{
    candidates_stay_under_root(p.path@);
    first_existing_is_first(p.candidates@.len(), exists);
    assert(resolution(p.path@) is Ok);
    if let Some(i) = first_existing(p.candidates@.len(), exists) {
        assert(views_of(p.candidates@)[i as int] == p.candidates@[i as int]@);
        assert(views_of(p.candidates@).len() == p.candidates@.len());
        assert(stays_under_root(tried(p.path@)[i as int]));
    }
}

} // verus!
