use vstd::prelude::*;
use crate::alphabet::{parse_resolution, resolution_of, Resolution};
use crate::text::str_eq;

verus! {

/// The run's settings, as given on the command line.
pub struct Options {
    pub input: String,
    pub output: String,
    pub method: String,
    pub tolerate: String,
    pub stereo: String,
    pub colorize: String,
}

/// Why a command line does not give a usable set of options.
#[derive(Clone, Copy, Debug, PartialEq, Eq, Structural)]
pub enum OptionsError {
    /// Fewer than five words on the command line, the program's name included.
    TooFewArguments,
    /// An option that takes a value is the last word.
    MissingValue,
    /// `-h` was given.
    HelpRequested,
    /// A word that is not one of the options.
    UnknownOption,
    /// The weighting method is neither `hen` nor `va`.
    InvalidMethod,
    /// The tolerance setting is neither `yes` nor `no`.
    InvalidTolerate,
    /// The resolution is none of `7`, `07` and `21`.
    InvalidStereo,
    /// The colouring setting is neither `yes` nor `no`.
    InvalidColorize,
}

/// The settings in the order input, output, method, tolerate, stereo, colorize.
pub open spec fn default_settings() -> Seq<Seq<char>> {
    seq![""@, ""@, "hen"@, "yes"@, "7"@, "no"@]
}

/// The setting that an option word fills, if it is one.
pub open spec fn option_slot(word: Seq<char>) -> Option<int> {
    if word == "-i"@ {
        Some(0)
    } else if word == "-o"@ {
        Some(1)
    } else if word == "-m"@ {
        Some(2)
    } else if word == "-t"@ {
        Some(3)
    } else if word == "-s"@ {
        Some(4)
    } else if word == "-c"@ {
        Some(5)
    } else {
        None
    }
}

/// Reads the words from index `i` on, each option followed by its value.
pub open spec fn scan_words(args: Seq<Seq<char>>, i: int, cur: Seq<Seq<char>>) -> Result<Seq<Seq<char>>, OptionsError>
    decreases args.len() - i,
{
    if i < 0 || i >= args.len() {
        Ok(cur)
    } else {
        match option_slot(args[i]) {
            Some(k) => if i + 1 < args.len() {
                scan_words(args, i + 2, cur.update(k, args[i + 1]))
            } else {
                Err(OptionsError::MissingValue)
            },
            None => if args[i] == "-h"@ {
                Err(OptionsError::HelpRequested)
            } else {
                Err(OptionsError::UnknownOption)
            },
        }
    }
}

pub open spec fn is_yes_no(s: Seq<char>) -> bool {
    s == "yes"@ || s == "no"@
}

/// The settings that a command line (the program's name first) gives.
pub open spec fn settings_of(args: Seq<Seq<char>>) -> Result<Seq<Seq<char>>, OptionsError> {
    if args.len() < 5 {
        Err(OptionsError::TooFewArguments)
    } else {
        match scan_words(args, 1, default_settings()) {
            Err(e) => Err(e),
            Ok(s) => if !(s[2] == "hen"@ || s[2] == "va"@) {
                Err(OptionsError::InvalidMethod)
            } else if !is_yes_no(s[3]) {
                Err(OptionsError::InvalidTolerate)
            } else if resolution_of(s[4]) is None {
                Err(OptionsError::InvalidStereo)
            } else if !is_yes_no(s[5]) {
                Err(OptionsError::InvalidColorize)
            } else {
                Ok(s)
            },
        }
    }
}

pub open spec fn words_of(argv: Seq<String>) -> Seq<Seq<char>> {
    Seq::new(argv.len(), |i: int| argv[i]@)
}

impl Options {
    pub open spec fn settings(&self) -> Seq<Seq<char>> {
        seq![self.input@, self.output@, self.method@, self.tolerate@, self.stereo@, self.colorize@]
    }

    /// Reads the options from a command line whose first word is the
    /// program's name. Each of `-i`, `-o`, `-m`, `-t`, `-s` and `-c` takes the
    /// next word as its value; a later one overrides an earlier one.
    pub fn new(argv: &Vec<String>) -> (r: Result<Options, OptionsError>)
        ensures
            match r {
                Ok(o) => settings_of(words_of(argv@)) == Ok::<Seq<Seq<char>>, OptionsError>(o.settings()),
                Err(e) => settings_of(words_of(argv@)) == Err::<Seq<Seq<char>>, OptionsError>(e),
            },
    {
        let ghost args = words_of(argv@);
        if argv.len() < 5 {
            return Err(OptionsError::TooFewArguments);
        }
        let mut input = String::new();
        let mut output = String::new();
        let mut method = "hen".to_owned();
        let mut tolerate = "yes".to_owned();
        let mut stereo = "7".to_owned();
        let mut colorize = "no".to_owned();
        let mut i: usize = 1;
        proof {
            reveal_strlit("");
        }
        assert(input@ =~= ""@);
        assert(output@ =~= ""@);
        assert(seq![input@, output@, method@, tolerate@, stereo@, colorize@] =~= default_settings());
        while i < argv.len()
            invariant
                args == words_of(argv@),
                1 <= i <= argv.len(),
                argv.len() >= 5,
                scan_words(args, i as int, seq![input@, output@, method@, tolerate@, stereo@, colorize@])
                    == scan_words(args, 1, default_settings()),
            decreases argv.len() - i,
        {
            let ghost cur = seq![input@, output@, method@, tolerate@, stereo@, colorize@];
            let word = argv[i].as_str();
            assert(args[i as int] == word@);
            assert(args.len() == argv.len());
            let slot: usize = if str_eq(word, "-i") {
                0
            } else if str_eq(word, "-o") {
                1
            } else if str_eq(word, "-m") {
                2
            } else if str_eq(word, "-t") {
                3
            } else if str_eq(word, "-s") {
                4
            } else if str_eq(word, "-c") {
                5
            } else if str_eq(word, "-h") {
                return Err(OptionsError::HelpRequested);
            } else {
                return Err(OptionsError::UnknownOption);
            };
            assert(option_slot(args[i as int]) == Some(slot as int));
            if i + 1 >= argv.len() {
                return Err(OptionsError::MissingValue);
            }
            let value = argv[i + 1].clone();
            if slot == 0 {
                input = value;
            } else if slot == 1 {
                output = value;
            } else if slot == 2 {
                method = value;
            } else if slot == 3 {
                tolerate = value;
            } else if slot == 4 {
                stereo = value;
            } else {
                colorize = value;
            }
            assert(seq![input@, output@, method@, tolerate@, stereo@, colorize@] =~= cur.update(
                slot as int,
                args[i + 1],
            ));
            i = i + 2;
        }
        let ghost fin = seq![input@, output@, method@, tolerate@, stereo@, colorize@];
        assert(scan_words(args, i as int, fin) == Ok::<Seq<Seq<char>>, OptionsError>(fin));
        if !(str_eq(method.as_str(), "hen") || str_eq(method.as_str(), "va")) {
            return Err(OptionsError::InvalidMethod);
        }
        if !(str_eq(tolerate.as_str(), "yes") || str_eq(tolerate.as_str(), "no")) {
            return Err(OptionsError::InvalidTolerate);
        }
        if parse_resolution(stereo.as_str()).is_none() {
            return Err(OptionsError::InvalidStereo);
        }
        if !(str_eq(colorize.as_str(), "yes") || str_eq(colorize.as_str(), "no")) {
            return Err(OptionsError::InvalidColorize);
        }
        let o = Options { input, output, method, tolerate, stereo, colorize };
        assert(o.settings() =~= fin);
        Ok(o)
    }

    /// The resolution that the stereo setting names.
    pub fn resolution(&self) -> (r: Option<Resolution>)
        ensures
            r == resolution_of(self.stereo@),
    {
        parse_resolution(self.stereo.as_str())
    }
}

} // verus!
