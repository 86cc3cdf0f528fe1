use vstd::prelude::*;
use vstd::string::*;
use vstd::utf8::encode_utf8;
use crate::LoadError;

verus! {

/// Where asset bytes are retrieved from, chosen once when the process is
/// configured.
#[derive(Debug)]
pub enum AssetSource {
    /// Files under a resource root directory.
    Local { root: String },
    /// HTTP resources under a deployment origin.
    Remote { origin: String },
}

/// The path segment under which a deployment serves its resources.
pub open spec fn segment_bytes() -> Seq<u8> {
    seq![108u8, 101u8, 97u8, 114u8, 110u8, 45u8, 119u8, 103u8, 112u8, 117u8]
}

/// Whether the origin already ends in the resource segment.
pub open spec fn ends_with_segment(b: Seq<u8>) -> bool {
    b.len() >= 10 && b.subrange(b.len() - 10, b.len() as int) == segment_bytes()
}

/// The base URL of a deployment: its origin, extended by the resource
/// segment unless it already ends in it, with a closing slash.
pub open spec fn remote_base_of(origin: Seq<char>) -> Seq<char> {
    if ends_with_segment(encode_utf8(origin)) {
        origin + "/"@
    } else {
        origin + "/learn-wgpu/"@
    }
}

/// Forms the base URL that remote asset names resolve against.
pub fn remote_base(origin: &str) -> (r: String)
    ensures
        r@ == remote_base_of(origin@),
{
    let b = origin.as_bytes();
    let seg: [u8; 10] = [108, 101, 97, 114, 110, 45, 119, 103, 112, 117];
    let bl = b.len();
    let mut ends = bl >= 10;
    if ends {
        let start = bl - 10;
        let mut k: usize = 0;
        while k < 10
            invariant
                b@ == origin.spec_bytes(),
                b@.len() >= 10,
                bl == b@.len(),
                start == b@.len() - 10,
                seg@ == segment_bytes(),
                k <= 10,
                ends == forall|m: int| 0 <= m < k ==> b@[start + m] == seg@[m],
            decreases 10 - k,
        {
            ends = ends && b[start + k] == seg[k];
            k += 1;
        }
        assert(ends == (b@.subrange(start as int, b@.len() as int) =~= segment_bytes()));
    }
    let mut s = String::from_str(origin);
    if ends {
        s.append("/");
    } else {
        s.append("/learn-wgpu/");
    }
    s
}

/// What resolving `name` against the absolute URL `base` gives: the resolved
/// URL, or none where `base` is not an absolute URL or `name` does not resolve.
pub uninterp spec fn url_joined(base: Seq<char>, name: Seq<char>) -> Option<Seq<char>>;

/// Relies on `reqwest::Url::parse` (url's `Url`) to parse `base` as an
/// absolute URL and on `Url::join` to resolve `name` against it; the outcome
/// depends on the two strings alone.
#[verifier::external_body]
fn join_url(base: &str, name: &str) -> (r: Option<String>)
    ensures
        match r {
            Some(u) => url_joined(base@, name@) == Some(u@),
            None => url_joined(base@, name@) is None,
        },
{
    match reqwest::Url::parse(base) {
        Ok(b) => b.join(name).ok().map(|u| u.to_string()),
        Err(_) => None,
    }
}

/// Turns the outcome of resolving a URL into the URL or a `NetworkError`.
pub fn resolved_or_error(joined: Option<String>) -> (r: Result<String, LoadError>)
    ensures
        match joined {
            Some(u) => r is Ok && r->Ok_0@ == u@,
            None => r == Err::<String, LoadError>(LoadError::NetworkError),
        },
{
    match joined {
        Some(u) => Ok(u),
        None => Err(LoadError::NetworkError),
    }
}

/// The URL of a remote asset: `file_name` resolved against the deployment's
/// base URL. A name that does not resolve fails with `NetworkError`.
pub fn format_url(origin: &str, file_name: &str) -> (r: Result<String, LoadError>)
    ensures
        match url_joined(remote_base_of(origin@), file_name@) {
            Some(u) => r is Ok && r->Ok_0@ == u,
            None => r == Err::<String, LoadError>(LoadError::NetworkError),
        },
{
    let base = remote_base(origin);
    resolved_or_error(join_url(base.as_str(), file_name))
}

/// Whether an HTTP status is a success; any other fails with `NetworkError`.
pub fn check_status(status: u16) -> (r: Result<(), LoadError>)
    ensures
        r is Ok <==> 200 <= status <= 299,
        r is Err ==> r == Err::<(), LoadError>(LoadError::NetworkError),
{
    if 200 <= status && status <= 299 {
        Ok(())
    } else {
        Err(LoadError::NetworkError)
    }
}

impl AssetSource {
    /// Where the named asset is retrieved from: a path under the local root,
    /// or a URL under the remote origin.
    pub fn locate(&self, name: &str) -> (r: Result<String, LoadError>)
        ensures
            match self {
                AssetSource::Local { root } => r is Ok && r->Ok_0@ == root@ + "/"@ + name@,
                AssetSource::Remote { origin } => match url_joined(remote_base_of(origin@), name@) {
                    Some(u) => r is Ok && r->Ok_0@ == u,
                    None => r == Err::<String, LoadError>(LoadError::NetworkError),
                },
            },
    {
        match self {
            AssetSource::Local { root } => {
                let mut s = root.clone();
                s.append("/");
                s.append(name);
                Ok(s)
            },
            AssetSource::Remote { origin } => format_url(origin.as_str(), name),
        }
    }
}

} // verus!
