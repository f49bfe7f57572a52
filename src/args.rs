//! The two command-line arguments: a mode selector and its operand.
use vstd::prelude::*;

verus! {

/// What to hash: the contents of a file, or a literal text.
pub enum AppArgs {
    File(String),
    Text(String),
}

/// Why the arguments do not name something to hash.
#[derive(Clone, Copy, Debug, PartialEq, Eq, Structural)]
pub enum ArgsError {
    /// Not exactly two arguments were given.
    WrongCount,
    /// The first argument is neither `f` nor `t`.
    InvalidDoctype,
}

/// The selector that asks for a file path.
pub open spec fn is_file_selector(s: Seq<char>) -> bool {
    s == seq!['f']
}

/// The selector that asks for a literal text.
pub open spec fn is_text_selector(s: Seq<char>) -> bool {
    s == seq!['t']
}

impl AppArgs {
    /// Reads the selector and its operand from the arguments that follow
    /// the program name.
    pub fn parse(args: &Vec<String>) -> (r: Result<AppArgs, ArgsError>)
        ensures
            args@.len() != 2 ==> r == Err::<AppArgs, ArgsError>(ArgsError::WrongCount),
            args@.len() == 2 && is_text_selector(args@[0]@) ==> (r matches Ok(AppArgs::Text(s))
                && s@ == args@[1]@),
            args@.len() == 2 && is_file_selector(args@[0]@) ==> (r matches Ok(AppArgs::File(p))
                && p@ == args@[1]@),
            args@.len() == 2 && !is_text_selector(args@[0]@) && !is_file_selector(args@[0]@) ==> r
                == Err::<AppArgs, ArgsError>(ArgsError::InvalidDoctype),
    {
        if args.len() != 2 {
            return Err(ArgsError::WrongCount);
        }
        let text = "t".to_owned();
        let file = "f".to_owned();
        proof {
            reveal_strlit("t");
            reveal_strlit("f");
            assert(text@ =~= seq!['t']);
            assert(file@ =~= seq!['f']);
            assert(file@[0] != text@[0]);
        }
        if args[0] == text {
            Ok(AppArgs::Text(args[1].clone()))
        } else if args[0] == file {
            Ok(AppArgs::File(args[1].clone()))
        } else {
            Err(ArgsError::InvalidDoctype)
        }
    }
}

} // verus!
