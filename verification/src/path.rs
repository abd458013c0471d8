use crate::digits::dec_digits;
use crate::digits::u32_to_decimal;
use vstd::prelude::*;

verus! {

/// The destination path used when no override is given:
/// `input/year{year}/day{day}.txt`, relative to the working directory.
pub open spec fn default_path(year: int, day: int) -> Seq<char> {
    "input/year"@ + dec_digits(year) + "/day"@ + dec_digits(day) + ".txt"@
}

/// Resolves the destination path: an explicit override is used verbatim,
/// whatever the year and day; otherwise the default path is synthesized.
pub fn resolve_path(output: Option<String>, year: u32, day: u32) -> (p: String)
    ensures
        output matches Some(o) ==> p@ == o@,
        output is None ==> p@ == default_path(year as int, day as int),
{
    match output {
        Some(p) => p,
        None => {
            let mut s = String::from_str("input/year");
            let y = u32_to_decimal(year);
            s.append(y.as_str());
            s.append("/day");
            let d = u32_to_decimal(day);
            s.append(d.as_str());
            s.append(".txt");
            proof {
                assert(s@ =~= default_path(year as int, day as int));
            }
            s
        },
    }
}

} // verus!
