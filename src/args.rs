use vstd::prelude::*;

verus! {

/// What one run is asked to do.
pub struct Invocation {
    /// The directory whose files are resized.
    pub source: String,
    /// The existing directory that the resized files are written to.
    pub dest: String,
    /// The width of every resized image, in pixels.
    pub length: u32,
    /// The height of every resized image, in pixels.
    pub width: u32,
    /// A file name to leave out.
    pub exclude: Option<String>,
}

/// Why the command line was refused.
#[derive(Clone, Copy, Debug, PartialEq, Eq, Structural)]
pub enum ArgError {
    /// Fewer arguments than the positional ones that are required.
    Missing,
    /// A size that is not a positive decimal integer that fits in 32 bits.
    InvalidNumber,
}

/// The value of a sequence of decimal digits.
pub open spec fn digits_value(s: Seq<char>) -> int
    decreases s.len(),
{
    if s.len() == 0 {
        0
    } else {
        digits_value(s.drop_last()) * 10 + (s.last() as u32 - '0' as u32)
    }
}

/// Whether `s` is one or more decimal digits.
pub open spec fn all_digits(s: Seq<char>) -> bool {
    s.len() > 0 && forall|i: int| 0 <= i < s.len() ==> '0' <= #[trigger] s[i] <= '9'
}

/// The `u32` that `s` spells: an optional '+' and then decimal digits, with a
/// value that fits in 32 bits.
pub open spec fn decimal_u32(s: Seq<char>) -> Option<u32> {
    let body = if s.len() > 0 && s[0] == '+' {
        s.drop_first()
    } else {
        s
    };
    if all_digits(body) && digits_value(body) <= u32::MAX {
        Some(digits_value(body) as u32)
    } else {
        None
    }
}

/// Relies on `str::parse::<u32>`: an optional '+' followed by decimal digits
/// whose value fits, and nothing else, is accepted.
#[verifier::external_body]
fn parse_u32(s: &str) -> (r: Option<u32>)
    ensures
        r == decimal_u32(s@),
{
    s.parse::<u32>().ok()
}

/// The size that an argument gives: a positive decimal `u32`.
pub open spec fn size_arg(s: Seq<char>) -> Option<u32> {
    match decimal_u32(s) {
        Some(v) if v > 0 => Some(v),
        _ => None,
    }
}

/// What a command line asks for, as plain values; `args[0]` is the program.
pub open spec fn invocation_of(args: Seq<String>) -> Result<
    (Seq<char>, Seq<char>, u32, u32, Option<Seq<char>>),
    ArgError,
> {
    if args.len() < 4 {
        Err(ArgError::Missing)
    } else if size_arg(args[3]@) is None {
        Err(ArgError::InvalidNumber)
    } else if args.len() < 5 {
        Err(ArgError::Missing)
    } else if size_arg(args[4]@) is None {
        Err(ArgError::InvalidNumber)
    } else {
        Ok(
            (
                args[1]@,
                args[2]@,
                size_arg(args[3]@)->Some_0,
                size_arg(args[4]@)->Some_0,
                if args.len() > 5 {
                    Some(args[5]@)
                } else {
                    None
                },
            ),
        )
    }
}

/// An invocation as plain values.
pub open spec fn invocation_view(v: Invocation) -> (
    Seq<char>,
    Seq<char>,
    u32,
    u32,
    Option<Seq<char>>,
) {
    (
        v.source@,
        v.dest@,
        v.length,
        v.width,
        match v.exclude {
            Some(e) => Some(e@),
            None => None,
        },
    )
}

fn read_size(s: &String) -> (r: Option<u32>)
    ensures
        r == size_arg(s@),
{
    match parse_u32(s.as_str()) {
        Some(v) => if v > 0 {
            Some(v)
        } else {
            None
        },
        None => None,
    }
}

/// Reads the command line `<program> <source_dir> <dest_dir> <length> <width>
/// [excluded_name]`, arguments in order: a missing argument or a size that is
/// not a positive decimal integer is an error, found before anything else is
/// done. Arguments after the sixth are ignored.
pub fn parse_args(args: &Vec<String>) -> (r: Result<Invocation, ArgError>)
    ensures
        match r {
            Ok(v) => invocation_of(args@) == Ok::<_, ArgError>(invocation_view(v)),
            Err(e) => invocation_of(args@) == Err::<
                (Seq<char>, Seq<char>, u32, u32, Option<Seq<char>>),
                ArgError,
            >(e),
        },
{
    if args.len() < 4 {
        return Err(ArgError::Missing);
    }
    let length = match read_size(&args[3]) {
        Some(v) => v,
        None => return Err(ArgError::InvalidNumber),
    };
    if args.len() < 5 {
        return Err(ArgError::Missing);
    }
    let width = match read_size(&args[4]) {
        Some(v) => v,
        None => return Err(ArgError::InvalidNumber),
    };
    let exclude = if args.len() > 5 {
        Some(args[5].clone())
    } else {
        None
    };
    Ok(Invocation { source: args[1].clone(), dest: args[2].clone(), length, width, exclude })
}

} // verus!
