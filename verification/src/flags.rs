//! Configuration flags of the detection engine.
//!
//! A flag set is a bit mask whose layout is fixed by the engine. Every
//! primitive flag is one bit; a composite flag is the union of the primitive
//! flags it stands for.

use vstd::prelude::*;

verus! {

/// No special handling.
pub const NONE: i32 = 0x0000000;

/// Print debugging messages to the standard error stream.
pub const DEBUG: i32 = 0x0000001;

/// If the file is a symbolic link, follow it.
pub const SYMLINK: i32 = 0x0000002;

/// If the file is compressed, unpack it and look at the contents.
pub const COMPRESS: i32 = 0x0000004;

/// If the file is a block or character special device, open it and look at
/// its contents.
pub const DEVICES: i32 = 0x0000008;

/// Return a MIME type string instead of a textual description.
pub const MIME_TYPE: i32 = 0x0000010;

/// Return all matches, not just the first.
pub const CONTINUE: i32 = 0x0000020;

/// Check the database for consistency and print warnings to the standard
/// error stream.
pub const CHECK: i32 = 0x0000040;

/// Try to preserve the access time of the files that are looked at.
pub const PRESERVE_ATIME: i32 = 0x0000080;

/// Do not translate unprintable characters to an octal escape.
pub const RAW: i32 = 0x0000100;

/// Treat operating system errors while opening files and following links as
/// real errors, instead of printing them into the result text.
pub const ERROR: i32 = 0x0000200;

/// Return a MIME encoding instead of a textual description.
pub const MIME_ENCODING: i32 = 0x0000400;

/// Return the Apple creator and type.
pub const APPLE: i32 = 0x0000800;

/// Do not look inside compressed files.
pub const NO_CHECK_COMPRESS: i32 = 0x0001000;

/// Do not examine tar files.
pub const NO_CHECK_TAR: i32 = 0x0002000;

/// Do not consult the signature databases.
pub const NO_CHECK_SOFT: i32 = 0x0004000;

/// Do not check for the EMX application type.
pub const NO_CHECK_APPTYPE: i32 = 0x0008000;

/// Do not print ELF details.
pub const NO_CHECK_ELF: i32 = 0x0010000;

/// Do not check for the various kinds of text files.
pub const NO_CHECK_TEXT: i32 = 0x0020000;

/// Do not get extra information on MS Composite Document Files.
pub const NO_CHECK_CDF: i32 = 0x0040000;

/// Do not look for known tokens inside text files.
pub const NO_CHECK_TOKENS: i32 = 0x0100000;

/// Do not check text encodings.
pub const NO_CHECK_ENCODING: i32 = 0x0200000;

/// Do not check for JSON files.
pub const NO_CHECK_JSON: i32 = 0x0400000;

/// Return a slash-separated list of extensions.
pub const EXTENSION: i32 = 0x1000000;

/// Check inside compressed files but do not report the compression.
pub const COMPRESS_TRANSP: i32 = 0x2000000;

/// Both the MIME type and the MIME encoding.
pub const MIME: i32 = MIME_TYPE | MIME_ENCODING;

/// No description: only the extension, the MIME type and encoding, and the
/// Apple creator and type.
pub const NODESC: i32 = EXTENSION | MIME | APPLE;

/// No built-in tests: only the signature databases are consulted.
pub const NO_CHECK_BUILTIN: i32 = NO_CHECK_COMPRESS | NO_CHECK_TAR | NO_CHECK_APPTYPE
    | NO_CHECK_ELF | NO_CHECK_TEXT | NO_CHECK_CDF | NO_CHECK_TOKENS | NO_CHECK_ENCODING
    | NO_CHECK_JSON;

/// A set of configuration flags, held as the bit mask that the engine takes.
///
/// Any combination of bits is a value of this type: which combinations make
/// sense is for the engine to say.
#[derive(Clone, Copy, Debug, PartialEq, Eq, Hash, Structural)]
pub struct MagicFlags {
    pub bits: i32,
}

/// Whether every bit of `part` is set in `whole`.
pub open spec fn includes(whole: i32, part: i32) -> bool {
    whole & part == part
}

#[allow(non_snake_case)]
impl MagicFlags {
    /// The empty set: no special handling.
    pub fn NONE() -> (r: MagicFlags)
        ensures
            r.bits == self::NONE,
    {
        MagicFlags { bits: self::NONE }
    }

    /// Debugging messages on the standard error stream.
    pub fn DEBUG() -> (r: MagicFlags)
        ensures
            r.bits == self::DEBUG,
    {
        MagicFlags { bits: self::DEBUG }
    }

    /// Follow symbolic links.
    pub fn SYMLINK() -> (r: MagicFlags)
        ensures
            r.bits == self::SYMLINK,
    {
        MagicFlags { bits: self::SYMLINK }
    }

    /// Look inside compressed files.
    pub fn COMPRESS() -> (r: MagicFlags)
        ensures
            r.bits == self::COMPRESS,
    {
        MagicFlags { bits: self::COMPRESS }
    }

    /// Look inside block and character special devices.
    pub fn DEVICES() -> (r: MagicFlags)
        ensures
            r.bits == self::DEVICES,
    {
        MagicFlags { bits: self::DEVICES }
    }

    /// A MIME type in place of a description.
    pub fn MIME_TYPE() -> (r: MagicFlags)
        ensures
            r.bits == self::MIME_TYPE,
    {
        MagicFlags { bits: self::MIME_TYPE }
    }

    /// All matches, not just the first.
    pub fn CONTINUE() -> (r: MagicFlags)
        ensures
            r.bits == self::CONTINUE,
    {
        MagicFlags { bits: self::CONTINUE }
    }

    /// Check the database for consistency.
    pub fn CHECK() -> (r: MagicFlags)
        ensures
            r.bits == self::CHECK,
    {
        MagicFlags { bits: self::CHECK }
    }

    /// Preserve the access time of the files looked at.
    pub fn PRESERVE_ATIME() -> (r: MagicFlags)
        ensures
            r.bits == self::PRESERVE_ATIME,
    {
        MagicFlags { bits: self::PRESERVE_ATIME }
    }

    /// Leave unprintable characters as they are.
    pub fn RAW() -> (r: MagicFlags)
        ensures
            r.bits == self::RAW,
    {
        MagicFlags { bits: self::RAW }
    }

    /// Report operating system errors as errors.
    pub fn ERROR() -> (r: MagicFlags)
        ensures
            r.bits == self::ERROR,
    {
        MagicFlags { bits: self::ERROR }
    }

    /// A MIME encoding in place of a description.
    pub fn MIME_ENCODING() -> (r: MagicFlags)
        ensures
            r.bits == self::MIME_ENCODING,
    {
        MagicFlags { bits: self::MIME_ENCODING }
    }

    /// The Apple creator and type.
    pub fn APPLE() -> (r: MagicFlags)
        ensures
            r.bits == self::APPLE,
    {
        MagicFlags { bits: self::APPLE }
    }

    /// Do not look inside compressed files.
    pub fn NO_CHECK_COMPRESS() -> (r: MagicFlags)
        ensures
            r.bits == self::NO_CHECK_COMPRESS,
    {
        MagicFlags { bits: self::NO_CHECK_COMPRESS }
    }

    /// Do not examine tar files.
    pub fn NO_CHECK_TAR() -> (r: MagicFlags)
        ensures
            r.bits == self::NO_CHECK_TAR,
    {
        MagicFlags { bits: self::NO_CHECK_TAR }
    }

    /// Do not consult the signature databases.
    pub fn NO_CHECK_SOFT() -> (r: MagicFlags)
        ensures
            r.bits == self::NO_CHECK_SOFT,
    {
        MagicFlags { bits: self::NO_CHECK_SOFT }
    }

    /// Do not check for the EMX application type.
    pub fn NO_CHECK_APPTYPE() -> (r: MagicFlags)
        ensures
            r.bits == self::NO_CHECK_APPTYPE,
    {
        MagicFlags { bits: self::NO_CHECK_APPTYPE }
    }

    /// Do not print ELF details.
    pub fn NO_CHECK_ELF() -> (r: MagicFlags)
        ensures
            r.bits == self::NO_CHECK_ELF,
    {
        MagicFlags { bits: self::NO_CHECK_ELF }
    }

    /// Do not check for the various kinds of text files.
    pub fn NO_CHECK_TEXT() -> (r: MagicFlags)
        ensures
            r.bits == self::NO_CHECK_TEXT,
    {
        MagicFlags { bits: self::NO_CHECK_TEXT }
    }

    /// Do not look into MS Composite Document Files.
    pub fn NO_CHECK_CDF() -> (r: MagicFlags)
        ensures
            r.bits == self::NO_CHECK_CDF,
    {
        MagicFlags { bits: self::NO_CHECK_CDF }
    }

    /// Do not look for known tokens inside text files.
    pub fn NO_CHECK_TOKENS() -> (r: MagicFlags)
        ensures
            r.bits == self::NO_CHECK_TOKENS,
    {
        MagicFlags { bits: self::NO_CHECK_TOKENS }
    }

    /// Do not check text encodings.
    pub fn NO_CHECK_ENCODING() -> (r: MagicFlags)
        ensures
            r.bits == self::NO_CHECK_ENCODING,
    {
        MagicFlags { bits: self::NO_CHECK_ENCODING }
    }

    /// Do not check for JSON files.
    pub fn NO_CHECK_JSON() -> (r: MagicFlags)
        ensures
            r.bits == self::NO_CHECK_JSON,
    {
        MagicFlags { bits: self::NO_CHECK_JSON }
    }

    /// A slash-separated list of extensions.
    pub fn EXTENSION() -> (r: MagicFlags)
        ensures
            r.bits == self::EXTENSION,
    {
        MagicFlags { bits: self::EXTENSION }
    }

    /// Look inside compressed files without reporting the compression.
    pub fn COMPRESS_TRANSP() -> (r: MagicFlags)
        ensures
            r.bits == self::COMPRESS_TRANSP,
    {
        MagicFlags { bits: self::COMPRESS_TRANSP }
    }

    /// The MIME type together with the MIME encoding.
    pub fn MIME() -> (r: MagicFlags)
        ensures
            r.bits == self::MIME,
    {
        MagicFlags { bits: self::MIME }
    }

    /// The extension, the MIME type and encoding, and the Apple creator and type.
    pub fn NODESC() -> (r: MagicFlags)
        ensures
            r.bits == self::NODESC,
    {
        MagicFlags { bits: self::NODESC }
    }

    /// No built-in tests: only the signature databases.
    pub fn NO_CHECK_BUILTIN() -> (r: MagicFlags)
        ensures
            r.bits == self::NO_CHECK_BUILTIN,
    {
        MagicFlags { bits: self::NO_CHECK_BUILTIN }
    }

    /// The bit mask of this set.
    pub fn bits(&self) -> (r: i32)
        ensures
            r == self.bits,
    {
        self.bits
    }

    /// The union of two sets.
    pub fn union(self, other: MagicFlags) -> (r: MagicFlags)
        ensures
            r.bits == self.bits | other.bits,
    {
        MagicFlags { bits: self.bits | other.bits }
    }

    /// Whether every flag of `other` is present in this set.
    pub fn has(&self, other: MagicFlags) -> (r: bool)
        ensures
            r == includes(self.bits, other.bits),
    {
        self.bits & other.bits == other.bits
    }
}

impl Default for MagicFlags {
    /// The empty set.
    fn default() -> (r: MagicFlags)
        ensures
            r.bits == NONE,
    {
        MagicFlags { bits: NONE }
    }
}

impl vstd::std_specs::ops::BitOrSpecImpl for MagicFlags {
    open spec fn obeys_bitor_spec() -> bool {
        true
    }

    open spec fn bitor_req(self, rhs: MagicFlags) -> bool {
        true
    }

    open spec fn bitor_spec(self, rhs: MagicFlags) -> MagicFlags {
        MagicFlags { bits: self.bits | rhs.bits }
    }
}

impl core::ops::BitOr for MagicFlags {
    type Output = MagicFlags;

    /// The union of two sets, written with `|`.
    fn bitor(self, rhs: MagicFlags) -> (r: MagicFlags)
        ensures
            r.bits == self.bits | rhs.bits,
    {
        MagicFlags { bits: self.bits | rhs.bits }
    }
}

/// Every set has each of its own flags: a flag tested against itself is
/// present.
pub proof fn has_itself(flags: MagicFlags)
    ensures
        includes(flags.bits, flags.bits),
{
    let b = flags.bits;
    assert(b & b == b) by (bit_vector);
}

/// The empty set has no flag but the empty one.
pub proof fn none_has_only_none(flags: MagicFlags)
    ensures
        includes(NONE, flags.bits) <==> flags.bits == NONE,
{
    let b = flags.bits;
    assert((0i32 & b == b) <==> b == 0i32) by (bit_vector);
}

/// A union has every flag of both its parts, and a set has a union exactly
/// when it has both parts: setting a composite flag sets each of its
/// constituents.
pub proof fn union_has_parts(whole: MagicFlags, a: MagicFlags, b: MagicFlags)
    ensures
        includes(a.bits | b.bits, a.bits),
        includes(a.bits | b.bits, b.bits),
        includes(whole.bits, a.bits | b.bits) <==> includes(whole.bits, a.bits) && includes(
            whole.bits,
            b.bits,
        ),
{
    let w = whole.bits;
    let x = a.bits;
    let y = b.bits;
    assert((x | y) & x == x) by (bit_vector);
    assert((x | y) & y == y) by (bit_vector);
    assert((w & (x | y) == (x | y)) <==> (w & x == x && w & y == y)) by (bit_vector);
}

/// The composite flags are the unions of their constituents, bit for bit.
pub proof fn composites_are_unions()
    ensures
        MIME == MIME_TYPE | MIME_ENCODING,
        MIME == 0x0000410,
        NODESC == EXTENSION | MIME | APPLE,
        NODESC == EXTENSION | MIME_TYPE | MIME_ENCODING | APPLE,
        NODESC == 0x1000c10,
        NO_CHECK_BUILTIN == NO_CHECK_COMPRESS | NO_CHECK_TAR | NO_CHECK_APPTYPE | NO_CHECK_ELF
            | NO_CHECK_TEXT | NO_CHECK_CDF | NO_CHECK_TOKENS | NO_CHECK_ENCODING | NO_CHECK_JSON,
        NO_CHECK_BUILTIN == 0x077b000,
{
    assert(MIME == 0x0000410) by (bit_vector);
    assert(NODESC == 0x1000c10) by (bit_vector);
    assert(NODESC == EXTENSION | MIME_TYPE | MIME_ENCODING | APPLE) by (bit_vector);
    assert(NO_CHECK_BUILTIN == 0x077b000) by (bit_vector);
}

} // verus!
