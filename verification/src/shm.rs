//! Shared-memory negotiation: a one-time capability probe deciding whether
//! pixel transport may use shared memory, with a locality check on the
//! display target (cross-host shared memory cannot work).

use vstd::prelude::*;

verus! {

/// Sentinel format value meaning "no shared-memory pixmap transport".
pub const NO_SHM_FORMAT: i32 = -1;

/// What the display server's shared-memory extension reported.
#[derive(Debug, Clone, Copy, PartialEq, Eq, Structural)]
pub struct ShmProbe {
    /// The extension answered the version query.
    pub ext_supported: bool,
    /// The extension supports shared-memory pixmaps.
    pub pixmaps_supported: bool,
    /// The pixmap format the extension prefers.
    pub pixmap_format: i32,
}

/// The negotiated capability, cached for the connection's lifetime.
#[derive(Debug, Clone, Copy, PartialEq, Eq, Structural)]
pub struct ShmCaps {
    /// Shared-memory transport may be used.
    pub use_xshm: bool,
    /// Negotiated shared-memory pixmap format, or `NO_SHM_FORMAT`.
    pub pshm_format: i32,
}

/// `p` is a prefix of `s`.
pub open spec fn is_prefix_of(p: Seq<u8>, s: Seq<u8>) -> bool {
    p.len() <= s.len() && s.subrange(0, p.len() as int) == p
}

/// The bytes of "localhost".
pub open spec fn localhost_name() -> Seq<u8> {
    seq![108u8, 111u8, 99u8, 97u8, 108u8, 104u8, 111u8, 115u8, 116u8]
}

/// A display target names a remote host: it is nonempty, does not start with
/// `':'` (a plain local display number), and names neither the machine's own
/// hostname nor "localhost".
pub open spec fn spec_remote_display(dpy: Seq<u8>, host: Seq<u8>) -> bool {
    &&& dpy.len() > 0
    &&& dpy[0] != 58u8
    &&& !is_prefix_of(host, dpy)
    &&& !is_prefix_of(localhost_name(), dpy)
}

/// The negotiated capability as a function of the probe and the environment:
/// shared memory is used only when the extension supports it and the display
/// target (if any) is local; the pixmap format additionally needs pixmap
/// support, else it degrades to `NO_SHM_FORMAT`.
pub open spec fn spec_negotiate(probe: ShmProbe, host: Seq<u8>, dpy: Option<Seq<u8>>) -> ShmCaps {
    let remote = match dpy {
        Some(d) => spec_remote_display(d, host),
        None => false,
    };
    ShmCaps {
        use_xshm: probe.ext_supported && !remote,
        pshm_format: if probe.ext_supported && probe.pixmaps_supported && !remote {
            probe.pixmap_format
        } else {
            NO_SHM_FORMAT
        },
    }
}

/// The byte view of an optional byte vector.
pub open spec fn opt_bytes(o: Option<Vec<u8>>) -> Option<Seq<u8>> {
    match o {
        Some(v) => Some(v@),
        None => None,
    }
}

/// True when `p` is a prefix of `s`.
pub fn starts_with_bytes(s: &Vec<u8>, p: &Vec<u8>) -> (r: bool)
    ensures
        r == is_prefix_of(p@, s@),
{
    if p.len() > s.len() {
        return false;
    }
    let mut i: usize = 0;
    while i < p.len()
        invariant
            i <= p@.len(),
            p@.len() <= s@.len(),
            forall|j: int| 0 <= j < i ==> s@[j] == p@[j],
        decreases p@.len() - i,
    {
        if s[i] != p[i] {
            assert(!is_prefix_of(p@, s@)) by {
                if is_prefix_of(p@, s@) {
                    assert(s@.subrange(0, p@.len() as int)[i as int] == p@[i as int]);
                }
            }
            return false;
        }
        i += 1;
    }
    assert(s@.subrange(0, p@.len() as int) =~= p@);
    true
}

/// The literal byte form of "localhost".
fn localhost_bytes() -> (v: Vec<u8>)
    ensures
        v@ == localhost_name(),
{
    let mut v: Vec<u8> = Vec::new();
    v.push(108);
    v.push(111);
    v.push(99);
    v.push(97);
    v.push(108);
    v.push(104);
    v.push(111);
    v.push(115);
    v.push(116);
    proof {
        assert(v@ =~= localhost_name());
    }
    v
}

/// The one-time capability decision. It is a pure function of the probe, the
/// machine's hostname and the display-target value, so it is verified for
/// every environment.
pub fn negotiate(probe: &ShmProbe, host: &Vec<u8>, display_target: &Option<Vec<u8>>) -> (c: ShmCaps)
    ensures
        c == spec_negotiate(*probe, host@, opt_bytes(*display_target)),
{
    let remote: bool = match display_target {
        Some(d) => {
            if d.len() > 0 && d[0] != 58u8 {
                let lh = localhost_bytes();
                !starts_with_bytes(d, host) && !starts_with_bytes(d, &lh)
            } else {
                false
            }
        },
        None => false,
    };
    ShmCaps {
        use_xshm: probe.ext_supported && !remote,
        pshm_format: if probe.ext_supported && probe.pixmaps_supported && !remote {
            probe.pixmap_format
        } else {
            NO_SHM_FORMAT
        },
    }
}

/// Law: negotiation is a pure function of the probe and the environment, so
/// negotiating twice over the same environment yields the same capability
/// flag and format.
pub proof fn lemma_negotiate_idempotent(
    p1: ShmProbe,
    p2: ShmProbe,
    h1: Seq<u8>,
    h2: Seq<u8>,
    d1: Option<Seq<u8>>,
    d2: Option<Seq<u8>>,
)
    requires
        p1 == p2,
        h1 == h2,
        d1 == d2,
    ensures
        spec_negotiate(p1, h1, d1) == spec_negotiate(p2, h2, d2),
{
}

/// Law: a remote display target disables shared memory even when the
/// extension reports support.
pub proof fn lemma_remote_display_disables_shm(probe: ShmProbe, host: Seq<u8>, dpy: Seq<u8>)
    requires
        spec_remote_display(dpy, host),
    ensures
        !spec_negotiate(probe, host, Some(dpy)).use_xshm,
        spec_negotiate(probe, host, Some(dpy)).pshm_format == NO_SHM_FORMAT,
{
}

/// Law: the machine's hostname cannot affect the outcome when there is no
/// display target, or when the target is a plain `:`-prefixed display number:
/// those forms are local whatever the machine is called.
pub proof fn lemma_negotiate_host_irrelevant(
    probe: ShmProbe,
    h1: Seq<u8>,
    h2: Seq<u8>,
    dpy: Option<Seq<u8>>,
)
    requires
        match dpy {
            Some(d) => d.len() == 0 || d[0] == 58u8,
            None => true,
        },
    ensures
        spec_negotiate(probe, h1, dpy) == spec_negotiate(probe, h2, dpy),
{
}

/// Relies on gethostname::gethostname: returns the machine's hostname as an
/// OS string; the value is environment-dependent, so nothing is assumed of it.
#[verifier::external_body]
pub(crate) fn host_name_bytes() -> (r: Vec<u8>) {
    gethostname::gethostname().into_encoded_bytes()
}

} // verus!
