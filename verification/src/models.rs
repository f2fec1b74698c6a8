//! The domain values of an import: puzzle categories, errors and solve records.

use vstd::prelude::*;
use vstd::string::*;
use crate::error::TwistyTimerError;
use crate::text::{lowercased, same_text, to_lowercase, trim, trimmed};

verus! {

/// A puzzle or event category of the timer, or the text of one it does not know.
#[derive(Debug, PartialEq, PartialOrd, Ord, Eq, Hash)]
pub enum TwistyTimerPuzzles {
    Cube222,
    Cube333,
    Cube444,
    Cube555,
    Cube666,
    Cube777,
    CubeSq1,
    CubeSkewb,
    CubeClock,
    CubePyra,
    CubeMega,
    Event3bld,
    EventFMC,
    EventOH,
    Event4bld,
    Event5bld,
    EventMultiBld,
    Unknown(String),
}

/// The mathematical value of a category: the unknown case carries its text as
/// a sequence of characters.
pub enum PuzzleModel {
    Cube222,
    Cube333,
    Cube444,
    Cube555,
    Cube666,
    Cube777,
    CubeSq1,
    CubeSkewb,
    CubeClock,
    CubePyra,
    CubeMega,
    Event3bld,
    EventFMC,
    EventOH,
    Event4bld,
    Event5bld,
    EventMultiBld,
    Unknown(Seq<char>),
}

impl View for TwistyTimerPuzzles {
    type V = PuzzleModel;

    open spec fn view(&self) -> PuzzleModel {
        match self {
            TwistyTimerPuzzles::Cube222 => PuzzleModel::Cube222,
            TwistyTimerPuzzles::Cube333 => PuzzleModel::Cube333,
            TwistyTimerPuzzles::Cube444 => PuzzleModel::Cube444,
            TwistyTimerPuzzles::Cube555 => PuzzleModel::Cube555,
            TwistyTimerPuzzles::Cube666 => PuzzleModel::Cube666,
            TwistyTimerPuzzles::Cube777 => PuzzleModel::Cube777,
            TwistyTimerPuzzles::CubeSq1 => PuzzleModel::CubeSq1,
            TwistyTimerPuzzles::CubeSkewb => PuzzleModel::CubeSkewb,
            TwistyTimerPuzzles::CubeClock => PuzzleModel::CubeClock,
            TwistyTimerPuzzles::CubePyra => PuzzleModel::CubePyra,
            TwistyTimerPuzzles::CubeMega => PuzzleModel::CubeMega,
            TwistyTimerPuzzles::Event3bld => PuzzleModel::Event3bld,
            TwistyTimerPuzzles::EventFMC => PuzzleModel::EventFMC,
            TwistyTimerPuzzles::EventOH => PuzzleModel::EventOH,
            TwistyTimerPuzzles::Event4bld => PuzzleModel::Event4bld,
            TwistyTimerPuzzles::Event5bld => PuzzleModel::Event5bld,
            TwistyTimerPuzzles::EventMultiBld => PuzzleModel::EventMultiBld,
            TwistyTimerPuzzles::Unknown(s) => PuzzleModel::Unknown(s@),
        }
    }
}

impl Clone for TwistyTimerPuzzles {
    fn clone(&self) -> (r: TwistyTimerPuzzles)
        ensures
            r@ == self@,
    {
        match self {
            TwistyTimerPuzzles::Cube222 => TwistyTimerPuzzles::Cube222,
            TwistyTimerPuzzles::Cube333 => TwistyTimerPuzzles::Cube333,
            TwistyTimerPuzzles::Cube444 => TwistyTimerPuzzles::Cube444,
            TwistyTimerPuzzles::Cube555 => TwistyTimerPuzzles::Cube555,
            TwistyTimerPuzzles::Cube666 => TwistyTimerPuzzles::Cube666,
            TwistyTimerPuzzles::Cube777 => TwistyTimerPuzzles::Cube777,
            TwistyTimerPuzzles::CubeSq1 => TwistyTimerPuzzles::CubeSq1,
            TwistyTimerPuzzles::CubeSkewb => TwistyTimerPuzzles::CubeSkewb,
            TwistyTimerPuzzles::CubeClock => TwistyTimerPuzzles::CubeClock,
            TwistyTimerPuzzles::CubePyra => TwistyTimerPuzzles::CubePyra,
            TwistyTimerPuzzles::CubeMega => TwistyTimerPuzzles::CubeMega,
            TwistyTimerPuzzles::Event3bld => TwistyTimerPuzzles::Event3bld,
            TwistyTimerPuzzles::EventFMC => TwistyTimerPuzzles::EventFMC,
            TwistyTimerPuzzles::EventOH => TwistyTimerPuzzles::EventOH,
            TwistyTimerPuzzles::Event4bld => TwistyTimerPuzzles::Event4bld,
            TwistyTimerPuzzles::Event5bld => TwistyTimerPuzzles::Event5bld,
            TwistyTimerPuzzles::EventMultiBld => TwistyTimerPuzzles::EventMultiBld,
            TwistyTimerPuzzles::Unknown(s) => TwistyTimerPuzzles::Unknown(s.clone()),
        }
    }
}

/// The canonical text of a category: the short code of a known one, and
/// `unknown:` followed by the kept text of an unknown one.
pub open spec fn code_of(p: PuzzleModel) -> Seq<char> {
    match p {
        PuzzleModel::Cube222 => "222"@,
        PuzzleModel::Cube333 => "333"@,
        PuzzleModel::Cube444 => "444"@,
        PuzzleModel::Cube555 => "555"@,
        PuzzleModel::Cube666 => "666"@,
        PuzzleModel::Cube777 => "777"@,
        PuzzleModel::CubeSq1 => "sq1"@,
        PuzzleModel::CubeSkewb => "skewb"@,
        PuzzleModel::CubeClock => "clock"@,
        PuzzleModel::CubePyra => "pyra"@,
        PuzzleModel::CubeMega => "mega"@,
        PuzzleModel::Event3bld => "3bld"@,
        PuzzleModel::EventFMC => "fmc"@,
        PuzzleModel::EventOH => "oh"@,
        PuzzleModel::Event4bld => "4bld"@,
        PuzzleModel::Event5bld => "5bld"@,
        PuzzleModel::EventMultiBld => "multi"@,
        PuzzleModel::Unknown(t) => "unknown:"@ + t,
    }
}

/// The category that a trimmed, lowercase code stands for: `None` for the
/// empty text, the unknown category for any other text outside the table.
pub open spec fn classify(s: Seq<char>) -> Option<PuzzleModel> {
    if s == "222"@ {
        Some(PuzzleModel::Cube222)
    } else if s == "333"@ {
        Some(PuzzleModel::Cube333)
    } else if s == "444"@ {
        Some(PuzzleModel::Cube444)
    } else if s == "555"@ {
        Some(PuzzleModel::Cube555)
    } else if s == "666"@ {
        Some(PuzzleModel::Cube666)
    } else if s == "777"@ {
        Some(PuzzleModel::Cube777)
    } else if s == "sq1"@ {
        Some(PuzzleModel::CubeSq1)
    } else if s == "skewb"@ {
        Some(PuzzleModel::CubeSkewb)
    } else if s == "clock"@ {
        Some(PuzzleModel::CubeClock)
    } else if s == "pyra"@ {
        Some(PuzzleModel::CubePyra)
    } else if s == "mega"@ {
        Some(PuzzleModel::CubeMega)
    } else if s == "3bld"@ {
        Some(PuzzleModel::Event3bld)
    } else if s == "fc"@ {
        Some(PuzzleModel::EventFMC)
    } else if s == "4bld"@ {
        Some(PuzzleModel::Event4bld)
    } else if s == "5bld"@ {
        Some(PuzzleModel::Event5bld)
    } else if s == "multi"@ {
        Some(PuzzleModel::EventMultiBld)
    } else if s == "oh"@ {
        Some(PuzzleModel::EventOH)
    } else if s.len() == 0 {
        None
    } else {
        Some(PuzzleModel::Unknown(s))
    }
}

/// Whether `s` is one of the codes of the fixed table.
pub open spec fn is_table_code(s: Seq<char>) -> bool {
    classify(s) is Some && !(classify(s)->Some_0 is Unknown)
}

/// The category of a raw code: that of its trimmed, lowercase form.
pub open spec fn resolve(s: Seq<char>) -> Option<PuzzleModel> {
    classify(lowercased(trimmed(s)))
}

impl TwistyTimerPuzzles {
    /// The canonical text of the category.
    pub fn to_string(&self) -> (r: String)
        ensures
            r@ == code_of(self@),
    {
        match self {
            TwistyTimerPuzzles::Cube222 => String::from_str("222"),
            TwistyTimerPuzzles::Cube333 => String::from_str("333"),
            TwistyTimerPuzzles::Cube444 => String::from_str("444"),
            TwistyTimerPuzzles::Cube555 => String::from_str("555"),
            TwistyTimerPuzzles::Cube666 => String::from_str("666"),
            TwistyTimerPuzzles::Cube777 => String::from_str("777"),
            TwistyTimerPuzzles::CubeSq1 => String::from_str("sq1"),
            TwistyTimerPuzzles::CubeSkewb => String::from_str("skewb"),
            TwistyTimerPuzzles::CubeClock => String::from_str("clock"),
            TwistyTimerPuzzles::CubePyra => String::from_str("pyra"),
            TwistyTimerPuzzles::CubeMega => String::from_str("mega"),
            TwistyTimerPuzzles::Event3bld => String::from_str("3bld"),
            TwistyTimerPuzzles::EventFMC => String::from_str("fmc"),
            TwistyTimerPuzzles::EventOH => String::from_str("oh"),
            TwistyTimerPuzzles::Event4bld => String::from_str("4bld"),
            TwistyTimerPuzzles::Event5bld => String::from_str("5bld"),
            TwistyTimerPuzzles::EventMultiBld => String::from_str("multi"),
            TwistyTimerPuzzles::Unknown(s) => {
                let mut r = String::from_str("unknown:");
                r.append(s.as_str());
                r
            },
        }
    }

    /// The category of a code that is already trimmed and in lowercase. The
    /// empty text is the one input without a category.
    pub fn from_normalized(s: &str) -> (r: Result<TwistyTimerPuzzles, TwistyTimerError>)
        ensures
            match classify(s@) {
                Some(m) => r matches Ok(p) && p@ == m,
                None => r matches Err(TwistyTimerError::EmptyPuzzleType),
            },
    {
        if same_text(s, "222") {
            Ok(TwistyTimerPuzzles::Cube222)
        } else if same_text(s, "333") {
            Ok(TwistyTimerPuzzles::Cube333)
        } else if same_text(s, "444") {
            Ok(TwistyTimerPuzzles::Cube444)
        } else if same_text(s, "555") {
            Ok(TwistyTimerPuzzles::Cube555)
        } else if same_text(s, "666") {
            Ok(TwistyTimerPuzzles::Cube666)
        } else if same_text(s, "777") {
            Ok(TwistyTimerPuzzles::Cube777)
        } else if same_text(s, "sq1") {
            Ok(TwistyTimerPuzzles::CubeSq1)
        } else if same_text(s, "skewb") {
            Ok(TwistyTimerPuzzles::CubeSkewb)
        } else if same_text(s, "clock") {
            Ok(TwistyTimerPuzzles::CubeClock)
        } else if same_text(s, "pyra") {
            Ok(TwistyTimerPuzzles::CubePyra)
        } else if same_text(s, "mega") {
            Ok(TwistyTimerPuzzles::CubeMega)
        } else if same_text(s, "3bld") {
            Ok(TwistyTimerPuzzles::Event3bld)
        } else if same_text(s, "fc") {
            Ok(TwistyTimerPuzzles::EventFMC)
        } else if same_text(s, "4bld") {
            Ok(TwistyTimerPuzzles::Event4bld)
        } else if same_text(s, "5bld") {
            Ok(TwistyTimerPuzzles::Event5bld)
        } else if same_text(s, "multi") {
            Ok(TwistyTimerPuzzles::EventMultiBld)
        } else if same_text(s, "oh") {
            Ok(TwistyTimerPuzzles::EventOH)
        } else if s.unicode_len() == 0 {
            Err(TwistyTimerError::EmptyPuzzleType)
        } else {
            Ok(TwistyTimerPuzzles::Unknown(String::from_str(s)))
        }
    }

    /// The category of a raw code: surrounding white space and letter case
    /// are ignored.
    pub fn from_str(s: &str) -> (r: Result<TwistyTimerPuzzles, TwistyTimerError>)
        ensures
            match resolve(s@) {
                Some(m) => r matches Ok(p) && p@ == m,
                None => r matches Err(TwistyTimerError::EmptyPuzzleType),
            },
    {
        let lowered = to_lowercase(trim(s));
        TwistyTimerPuzzles::from_normalized(lowered.as_str())
    }
}

/// Rendering a category and classifying the text again gives the category
/// back, for every known category but the fewest-moves event.
pub proof fn classify_inverts_code_of(p: PuzzleModel)
    requires
        !(p is Unknown),
        !(p is EventFMC),
    ensures
        classify(code_of(p)) == Some(p),
{
    reveal_table();
}

/// Classifying a code of the table and rendering the category gives the code
/// back, for every code but `fc`.
pub proof fn code_of_inverts_classify(code: Seq<char>)
    requires
        is_table_code(code),
        code != "fc"@,
    ensures
        code_of(classify(code)->Some_0) == code,
{
}

/// The one code that does not come back: `fc` stands for the fewest-moves
/// event, which renders as `fmc`.
pub proof fn fewest_moves_code_differs()
    ensures
        classify("fc"@) == Some(PuzzleModel::EventFMC),
        code_of(PuzzleModel::EventFMC) == "fmc"@,
        "fmc"@ != "fc"@,
        classify("fmc"@) == Some(PuzzleModel::Unknown("fmc"@)),
{
    reveal_table();
    reveal_strlit("fmc");
}

/// The characters of every code of the table.
proof fn reveal_table()
    ensures
        "222"@ == seq!['2', '2', '2'],
        "333"@ == seq!['3', '3', '3'],
        "444"@ == seq!['4', '4', '4'],
        "555"@ == seq!['5', '5', '5'],
        "666"@ == seq!['6', '6', '6'],
        "777"@ == seq!['7', '7', '7'],
        "sq1"@ == seq!['s', 'q', '1'],
        "skewb"@ == seq!['s', 'k', 'e', 'w', 'b'],
        "clock"@ == seq!['c', 'l', 'o', 'c', 'k'],
        "pyra"@ == seq!['p', 'y', 'r', 'a'],
        "mega"@ == seq!['m', 'e', 'g', 'a'],
        "3bld"@ == seq!['3', 'b', 'l', 'd'],
        "fc"@ == seq!['f', 'c'],
        "4bld"@ == seq!['4', 'b', 'l', 'd'],
        "5bld"@ == seq!['5', 'b', 'l', 'd'],
        "multi"@ == seq!['m', 'u', 'l', 't', 'i'],
        "oh"@ == seq!['o', 'h'],
{
    reveal_strlit("222");
    reveal_strlit("333");
    reveal_strlit("444");
    reveal_strlit("555");
    reveal_strlit("666");
    reveal_strlit("777");
    reveal_strlit("sq1");
    reveal_strlit("skewb");
    reveal_strlit("clock");
    reveal_strlit("pyra");
    reveal_strlit("mega");
    reveal_strlit("3bld");
    reveal_strlit("fc");
    reveal_strlit("4bld");
    reveal_strlit("5bld");
    reveal_strlit("multi");
    reveal_strlit("oh");
    assert("222"@ =~= seq!['2', '2', '2']);
    assert("333"@ =~= seq!['3', '3', '3']);
    assert("444"@ =~= seq!['4', '4', '4']);
    assert("555"@ =~= seq!['5', '5', '5']);
    assert("666"@ =~= seq!['6', '6', '6']);
    assert("777"@ =~= seq!['7', '7', '7']);
    assert("sq1"@ =~= seq!['s', 'q', '1']);
    assert("skewb"@ =~= seq!['s', 'k', 'e', 'w', 'b']);
    assert("clock"@ =~= seq!['c', 'l', 'o', 'c', 'k']);
    assert("pyra"@ =~= seq!['p', 'y', 'r', 'a']);
    assert("mega"@ =~= seq!['m', 'e', 'g', 'a']);
    assert("3bld"@ =~= seq!['3', 'b', 'l', 'd']);
    assert("fc"@ =~= seq!['f', 'c']);
    assert("4bld"@ =~= seq!['4', 'b', 'l', 'd']);
    assert("5bld"@ =~= seq!['5', 'b', 'l', 'd']);
    assert("multi"@ =~= seq!['m', 'u', 'l', 't', 'i']);
    assert("oh"@ =~= seq!['o', 'h']);
}

} // verus!
