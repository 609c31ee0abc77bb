use std::cmp::Ordering;
use vstd::prelude::*;
use vstd::string::*;

use crate::error::MuiError;

verus! {

/// A driver or shading-language version reduced to its leading
/// `major.minor` pair.
#[derive(Debug, Clone, Copy, PartialEq, Eq, Structural)]
pub struct GlVersion {
    pub major: u64,
    pub minor: u64,
}

pub open spec fn is_digit(c: char) -> bool {
    '0' <= c && c <= '9'
}

pub open spec fn digit_value(c: char) -> nat {
    (c as u32 - '0' as u32) as nat
}

pub open spec fn all_digits(s: Seq<char>) -> bool {
    forall|i: int| 0 <= i < s.len() ==> is_digit(#[trigger] s[i])
}

/// The decimal number that a run of digits spells.
pub open spec fn digits_value(s: Seq<char>) -> nat
    decreases s.len(),
{
    if s.len() == 0 {
        0
    } else {
        digits_value(s.drop_last()) * 10 + digit_value(s.last())
    }
}

/// Length of the run of digits in `s` that starts at `from`.
pub open spec fn digit_run(s: Seq<char>, from: int) -> nat
    decreases s.len() - from,
{
    if 0 <= from < s.len() && is_digit(s[from]) {
        1 + digit_run(s, from + 1)
    } else {
        0
    }
}

/// The leading `major.minor` pair of a version string: one or more digits,
/// a dot, one or more digits; whatever follows is ignored.
pub open spec fn version_prefix(s: Seq<char>) -> Option<(nat, nat)> {
    let a = digit_run(s, 0) as int;
    let b = digit_run(s, a + 1) as int;
    if a > 0 && a < s.len() && s[a] == '.' && b > 0 {
        Some((digits_value(s.subrange(0, a)), digits_value(s.subrange(a + 1, a + 1 + b))))
    } else {
        None
    }
}

/// The version that a version string announces, where both numbers fit in
/// 64 bits.
pub open spec fn parsed_version(s: Seq<char>) -> Option<GlVersion> {
    match version_prefix(s) {
        Some((major, minor)) => if major <= u64::MAX && minor <= u64::MAX {
            Some(GlVersion { major: major as u64, minor: minor as u64 })
        } else {
            None
        },
        None => None,
    }
}

/// Lexicographic order of versions: major first, then minor.
pub open spec fn version_order(a: GlVersion, b: GlVersion) -> Ordering {
    if a.major < b.major {
        Ordering::Less
    } else if a.major > b.major {
        Ordering::Greater
    } else if a.minor < b.minor {
        Ordering::Less
    } else if a.minor > b.minor {
        Ordering::Greater
    } else {
        Ordering::Equal
    }
}

pub open spec fn version_below(a: GlVersion, major: u64, minor: u64) -> bool {
    version_order(a, GlVersion { major, minor }) == Ordering::Less
}

proof fn lemma_digit_run_split(s: Seq<char>, from: int, mid: int)
    requires
        0 <= from <= mid <= s.len(),
        forall|i: int| from <= i < mid ==> is_digit(#[trigger] s[i]),
    ensures
        digit_run(s, from) == (mid - from) + digit_run(s, mid),
    decreases mid - from,
{
    if from < mid {
        lemma_digit_run_split(s, from + 1, mid);
    }
}

proof fn lemma_digits_value_step(s: Seq<char>, from: int, i: int)
    requires
        0 <= from <= i < s.len(),
    ensures
        digits_value(s.subrange(from, i + 1)) == digits_value(s.subrange(from, i)) * 10
            + digit_value(s[i]),
{
    assert(s.subrange(from, i + 1).drop_last() =~= s.subrange(from, i));
}

/// Relies on `semver::Version::new` and the `Ord` that `semver::Version`
/// derives: fields compare in order major, minor, patch, then the
/// pre-release and build parts, which are empty for versions made by `new`.
#[verifier::external_body]
fn semver_cmp(a: GlVersion, b: GlVersion) -> (r: Ordering)
    ensures
        r == version_order(a, b),
{
    semver::Version::new(a.major, a.minor, 0).cmp(&semver::Version::new(b.major, b.minor, 0))
}

fn digit_at(s: &str, i: usize) -> (r: bool)
    requires
        i < s@.len(),
    ensures
        r == is_digit(s@[i as int]),
{
    let c = s.get_char(i);
    '0' <= c && c <= '9'
}

/// Reads the run of digits of `s` that starts at `from`; returns where the
/// run ends and its value, if that fits in 64 bits.
fn scan_number(s: &str, len: usize, from: usize) -> (r: (usize, Option<u64>))
    requires
        len == s@.len(),
        from <= len,
    ensures
        r.0 == from + digit_run(s@, from as int),
        r.0 <= len,
        match r.1 {
            Some(v) => v == digits_value(s@.subrange(from as int, r.0 as int)),
            None => digits_value(s@.subrange(from as int, r.0 as int)) > u64::MAX,
        },
{
    let mut i: usize = from;
    let mut value: Option<u64> = Some(0);
    while i < len && digit_at(s, i)
        invariant
            len == s@.len(),
            from <= i <= len,
            forall|k: int| from <= k < i ==> is_digit(#[trigger] s@[k]),
            match value {
                Some(v) => v == digits_value(s@.subrange(from as int, i as int)),
                None => digits_value(s@.subrange(from as int, i as int)) > u64::MAX,
            },
        decreases len - i,
    {
        let c = s.get_char(i);
        let d = (c as u32 - '0' as u32) as u64;
        proof {
            lemma_digits_value_step(s@, from as int, i as int);
        }
        value = match value {
            Some(v) => match v.checked_mul(10) {
                Some(t) => t.checked_add(d),
                None => None,
            },
            None => None,
        };
        i = i + 1;
    }
    proof {
        lemma_digit_run_split(s@, from as int, i as int);
    }
    (i, value)
}

/// Parses the leading `major.minor` of a version string, ignoring what
/// follows (a patch number, a vendor suffix).
pub fn parse_version(s: &str) -> (r: Result<GlVersion, MuiError>)
    ensures
        match parsed_version(s@) {
            Some(v) => r == Ok::<GlVersion, MuiError>(v),
            None => r == Err::<GlVersion, MuiError>(MuiError::VersionStringUnparseable),
        },
{
    let len = s.unicode_len();
    let (a, major) = scan_number(s, len, 0);
    if a == 0 || a >= len {
        return Err(MuiError::VersionStringUnparseable);
    }
    if s.get_char(a) != '.' {
        return Err(MuiError::VersionStringUnparseable);
    }
    let (b, minor) = scan_number(s, len, a + 1);
    if b == a + 1 {
        return Err(MuiError::VersionStringUnparseable);
    }
    match (major, minor) {
        (Some(major), Some(minor)) => Ok(GlVersion { major, minor }),
        _ => Err(MuiError::VersionStringUnparseable),
    }
}

/// Name of the extension that offers vertex array objects before GL 3.0.
pub open spec fn vertex_array_object_ext() -> Seq<char> {
    "GL_ARB_vertex_array_object"@
}

/// Name of the extension that offers uniform buffer objects before GL 3.1.
pub open spec fn uniform_buffer_object_ext() -> Seq<char> {
    "GL_ARB_uniform_buffer_object"@
}

/// A feature whose availability is derived from the driver's version and
/// extensions.
#[derive(Debug, Clone, Copy, PartialEq, Eq, Structural)]
pub enum GlFeature {
    UniformBufferObject,
}

/// What a capability record holds, as mathematical values.
pub ghost struct CapabilitiesView {
    pub vendor: Seq<char>,
    pub renderer: Seq<char>,
    pub full_gl_version: Seq<char>,
    pub gl_version: GlVersion,
    pub full_glsl_version: Seq<char>,
    pub glsl_version: GlVersion,
    pub extensions: Seq<Seq<char>>,
    pub ubo: bool,
}

pub open spec fn extension_names(extensions: Seq<String>) -> Seq<Seq<char>> {
    extensions.map_values(|e: String| e@)
}

/// Whether uniform buffer objects are available: always from GL 3.1 on,
/// before that only through the extension.
pub open spec fn ubo_available(version: GlVersion, extensions: Seq<Seq<char>>) -> bool {
    !version_below(version, 3, 1) || extensions.contains(uniform_buffer_object_ext())
}

/// The outcome of negotiating with a driver that reports the given strings.
pub open spec fn negotiation(
    vendor: Seq<char>,
    renderer: Seq<char>,
    full_gl_version: Seq<char>,
    full_glsl_version: Seq<char>,
    extensions: Seq<Seq<char>>,
) -> Result<CapabilitiesView, MuiError> {
    match (parsed_version(full_gl_version), parsed_version(full_glsl_version)) {
        (Some(gl), Some(glsl)) => if version_below(gl, 2, 0) {
            Err(MuiError::DriverUnsupported(gl))
        } else if version_below(gl, 3, 0) && !extensions.contains(vertex_array_object_ext()) {
            Err(MuiError::MissingRequiredExtension(gl))
        } else {
            Ok(
                CapabilitiesView {
                    vendor,
                    renderer,
                    full_gl_version,
                    gl_version: gl,
                    full_glsl_version,
                    glsl_version: glsl,
                    extensions,
                    ubo: ubo_available(gl, extensions),
                },
            )
        },
        _ => Err(MuiError::VersionStringUnparseable),
    }
}

/// The negotiated capabilities of a graphics driver. Fixed once made.
pub struct GlCapabilities {
    vendor: String,
    renderer: String,
    full_gl_version: String,
    gl_version: GlVersion,
    full_glsl_version: String,
    glsl_version: GlVersion,
    extensions: Vec<String>,
    ubo: bool,
}

impl View for GlCapabilities {
    type V = CapabilitiesView;

    closed spec fn view(&self) -> CapabilitiesView {
        CapabilitiesView {
            vendor: self.vendor@,
            renderer: self.renderer@,
            full_gl_version: self.full_gl_version@,
            gl_version: self.gl_version,
            full_glsl_version: self.full_glsl_version@,
            glsl_version: self.glsl_version,
            extensions: extension_names(self.extensions@),
            ubo: self.ubo,
        }
    }
}

/// Whether `extensions` lists `name`.
pub fn has_extension(extensions: &Vec<String>, name: &str) -> (r: bool)
    ensures
        r == extension_names(extensions@).contains(name@),
{
    let key = name.to_owned();
    let mut i: usize = 0;
    while i < extensions.len()
        invariant
            key@ == name@,
            i <= extensions@.len(),
            forall|k: int| 0 <= k < i ==> extensions@[k]@ != name@,
        decreases extensions@.len() - i,
    {
        if extensions[i] == key {
            proof {
                assert(extension_names(extensions@)[i as int] == name@);
            }
            return true;
        }
        i = i + 1;
    }
    proof {
        assert forall|k: int| 0 <= k < extension_names(extensions@).len() implies
            extension_names(extensions@)[k] != name@ by {
            assert(extensions@[k]@ != name@);
        }
    }
    false
}

impl GlCapabilities {
    /// Negotiates with a driver from the strings it reports: parses both
    /// version strings, then applies the requirement checks in order
    /// (minimum version 2.0; before 3.0 the vertex-array-object extension)
    /// and derives the feature set.
    pub fn from_driver_info(
        vendor: String,
        renderer: String,
        full_gl_version: String,
        full_glsl_version: String,
        extensions: Vec<String>,
    ) -> (r: Result<GlCapabilities, MuiError>)
        ensures
            match negotiation(
                vendor@,
                renderer@,
                full_gl_version@,
                full_glsl_version@,
                extension_names(extensions@),
            ) {
                Ok(v) => r is Ok && r->Ok_0@ == v,
                Err(e) => r == Err::<GlCapabilities, MuiError>(e),
            },
    {
        let gl_version = match parse_version(full_gl_version.as_str()) {
            Ok(v) => v,
            Err(e) => return Err(e),
        };
        let glsl_version = match parse_version(full_glsl_version.as_str()) {
            Ok(v) => v,
            Err(e) => return Err(e),
        };
        let below_2_0 = semver_cmp(gl_version, GlVersion { major: 2, minor: 0 });
        if matches!(below_2_0, Ordering::Less) {
            return Err(MuiError::DriverUnsupported(gl_version));
        }
        let below_3_0 = semver_cmp(gl_version, GlVersion { major: 3, minor: 0 });
        if matches!(below_3_0, Ordering::Less) {
            if !has_extension(&extensions, "GL_ARB_vertex_array_object") {
                return Err(MuiError::MissingRequiredExtension(gl_version));
            }
        }
        let below_3_1 = semver_cmp(gl_version, GlVersion { major: 3, minor: 1 });
        let ubo = if matches!(below_3_1, Ordering::Less) {
            has_extension(&extensions, "GL_ARB_uniform_buffer_object")
        } else {
            true
        };
        Ok(
            GlCapabilities {
                vendor,
                renderer,
                full_gl_version,
                gl_version,
                full_glsl_version,
                glsl_version,
                extensions,
                ubo,
            },
        )
    }

    pub fn has_feature(&self, feature: GlFeature) -> (r: bool)
        ensures
            r == match feature {
                GlFeature::UniformBufferObject => self@.ubo,
            },
    {
        match feature {
            GlFeature::UniformBufferObject => self.ubo,
        }
    }

    pub fn ubo_supported(&self) -> (r: bool)
        ensures
            r == self@.ubo,
    {
        self.ubo
    }

    pub fn vendor(&self) -> (r: &str)
        ensures
            r@ == self@.vendor,
    {
        self.vendor.as_str()
    }

    pub fn renderer(&self) -> (r: &str)
        ensures
            r@ == self@.renderer,
    {
        self.renderer.as_str()
    }

    pub fn full_gl_version(&self) -> (r: &str)
        ensures
            r@ == self@.full_gl_version,
    {
        self.full_gl_version.as_str()
    }

    pub fn gl_version(&self) -> (r: GlVersion)
        ensures
            r == self@.gl_version,
    {
        self.gl_version
    }

    pub fn full_glsl_version(&self) -> (r: &str)
        ensures
            r@ == self@.full_glsl_version,
    {
        self.full_glsl_version.as_str()
    }

    pub fn glsl_version(&self) -> (r: GlVersion)
        ensures
            r == self@.glsl_version,
    {
        self.glsl_version
    }
}

/// A version string of the form `<major>.<minor>.<anything>` parses to
/// exactly `(major, minor)`, whatever follows the second dot.
pub proof fn law_version_prefix(major: Seq<char>, minor: Seq<char>, anything: Seq<char>)
    requires
        major.len() > 0,
        minor.len() > 0,
        all_digits(major),
        all_digits(minor),
        digits_value(major) <= u64::MAX,
        digits_value(minor) <= u64::MAX,
    ensures
        parsed_version(major + seq!['.'] + minor + seq!['.'] + anything) == Some(
            GlVersion { major: digits_value(major) as u64, minor: digits_value(minor) as u64 },
        ),
{
    let s = major + seq!['.'] + minor + seq!['.'] + anything;
    let a = major.len() as int;
    let b = minor.len() as int;
    assert forall|i: int| 0 <= i < a implies is_digit(#[trigger] s[i]) by {
        assert(s[i] == major[i]);
    }
    lemma_digit_run_split(s, 0, a);
    assert(s[a] == '.');
    assert forall|i: int| a + 1 <= i < a + 1 + b implies is_digit(#[trigger] s[i]) by {
        assert(s[i] == minor[i - a - 1]);
    }
    lemma_digit_run_split(s, a + 1, a + 1 + b);
    assert(s[a + 1 + b] == '.');
    assert(digit_run(s, 0) == a);
    assert(digit_run(s, a + 1) == b);
    assert(s.subrange(0, a) =~= major);
    assert(s.subrange(a + 1, a + 1 + b) =~= minor);
}

/// Every driver older than 2.0 is refused as unsupported, whatever
/// extensions it offers.
pub proof fn law_old_driver_unsupported(
    vendor: Seq<char>,
    renderer: Seq<char>,
    full_gl_version: Seq<char>,
    full_glsl_version: Seq<char>,
    extensions: Seq<Seq<char>>,
)
    requires
        parsed_version(full_gl_version) is Some,
        parsed_version(full_glsl_version) is Some,
        version_below(parsed_version(full_gl_version)->0, 2, 0),
    ensures
        negotiation(vendor, renderer, full_gl_version, full_glsl_version, extensions) == Err::<
            CapabilitiesView,
            MuiError,
        >(MuiError::DriverUnsupported(parsed_version(full_gl_version)->0)),
{
}

/// A driver at exactly 3.1 has uniform buffer objects, whether or not it
/// lists the extension.
pub proof fn law_ubo_core_at_3_1(
    vendor: Seq<char>,
    renderer: Seq<char>,
    full_gl_version: Seq<char>,
    full_glsl_version: Seq<char>,
    extensions: Seq<Seq<char>>,
)
    requires
        parsed_version(full_gl_version) == Some(GlVersion { major: 3, minor: 1 }),
        parsed_version(full_glsl_version) is Some,
    ensures
        negotiation(vendor, renderer, full_gl_version, full_glsl_version, extensions) is Ok,
        negotiation(vendor, renderer, full_gl_version, full_glsl_version, extensions)->Ok_0.ubo,
{
}

/// A driver at 2.5 that offers vertex array objects has uniform buffer
/// objects exactly when it lists their extension.
pub proof fn law_ubo_by_extension_at_2_5(
    vendor: Seq<char>,
    renderer: Seq<char>,
    full_gl_version: Seq<char>,
    full_glsl_version: Seq<char>,
    extensions: Seq<Seq<char>>,
)
    requires
        parsed_version(full_gl_version) == Some(GlVersion { major: 2, minor: 5 }),
        parsed_version(full_glsl_version) is Some,
        extensions.contains(vertex_array_object_ext()),
    ensures
        negotiation(vendor, renderer, full_gl_version, full_glsl_version, extensions) is Ok,
        negotiation(vendor, renderer, full_gl_version, full_glsl_version, extensions)->Ok_0.ubo
            == extensions.contains(uniform_buffer_object_ext()),
{
}

} // verus!
