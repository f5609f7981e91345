//! Where the game is installed and which versions of it are known.

use vstd::prelude::*;
use regex::Regex;
use crate::parse::{parse_u32_from, spec_parse_u32, str_equal};

verus! {

/// The text that capture group `group` of the leftmost-first match of the
/// regular expression `pattern` finds in `text`; `None` when the pattern
/// does not compile, when nothing matches, or when the group takes no part
/// in the match.
pub uninterp spec fn regex_capture(pattern: Seq<char>, text: Seq<char>, group: nat) -> Option<Seq<char>>;

/// `Regex::new(pattern)`, then `captures(text)` and `get(group)` on what
/// that gives; what comes out is named `regex_capture`.
#[verifier::external_body]
fn capture_group(pattern: &str, text: &str, group: usize) -> (r: Option<String>)
    ensures
        match r {
            Some(s) => regex_capture(pattern@, text@, group as nat) == Some(s@),
            None => regex_capture(pattern@, text@, group as nat) is None,
        },
{
    match Regex::new(pattern) {
        Ok(re) => re.captures(text).and_then(|c| c.get(group)).map(|m| m.as_str().to_string()),
        Err(_) => None,
    }
}

/// The pattern of the line of `ExecuteInfo.txt` that names the game's
/// executable: the game's directory is what precedes `\Versions`.
pub open spec fn execute_info_pattern() -> Seq<char> {
    "= (.*)\\\\Versions"@
}

/// The game's directory as `ExecuteInfo.txt` (with contents `contents`)
/// gives it, if it does.
pub fn execute_info_dir(contents: &str) -> (r: Option<String>)
    ensures
        match r {
            Some(s) => regex_capture(execute_info_pattern(), contents@, 1) == Some(s@),
            None => regex_capture(execute_info_pattern(), contents@, 1) is None,
        },
{
    capture_group("= (.*)\\\\Versions", contents, 1)
}

/// `c` with a backslash turned into a slash.
pub open spec fn forward_slash(c: char) -> char {
    if c == '\\' { '/' } else { c }
}

/// `path` with every backslash turned into a slash.
pub fn to_forward_slashes(path: &str) -> (r: String)
    ensures
        r@ == path@.map_values(|c: char| forward_slash(c)),
{
    let n = path.unicode_len();
    let mut r = String::new();
    let mut i: usize = 0;
    while i < n
        invariant
            n == path@.len(),
            0 <= i <= n,
            r@ == path@.take(i as int).map_values(|c: char| forward_slash(c)),
        decreases n - i,
    {
        if path.get_char(i) == '\\' {
            r.append("/");
            proof {
                reveal_strlit("/");
            }
        } else {
            r.append(path.substring_char(i, i + 1));
        }
        proof {
            assert(path@.take(i + 1) =~= path@.take(i as int).push(path@[i as int]));
            assert(r@ =~= path@.take(i + 1).map_values(|c: char| forward_slash(c)));
        }
        i = i + 1;
    }
    proof {
        assert(path@.take(n as int) =~= path@);
    }
    r
}

/// Whether an entry of the `Versions` directory, named `name`, is the
/// directory of a base version: a directory whose name starts with `Base`.
pub open spec fn is_base_dir(name: Seq<char>, is_dir: bool) -> bool {
    is_dir && name.len() >= 4 && name.take(4) == seq!['B', 'a', 's', 'e']
}

/// The number of a base version directory: what follows `Base`.
pub open spec fn base_number(name: Seq<char>) -> Option<u32> {
    spec_parse_u32(name.skip(4))
}

/// The latest base version among the entries `(name, is_dir)` of the
/// `Versions` directory: the largest number that follows `Base` in the
/// name of a directory.
pub fn get_latest_base_version(entries: &Vec<(String, bool)>) -> (r: u32)
    requires
        exists|i: int| 0 <= i < entries@.len() && is_base_dir(#[trigger] entries@[i].0@, entries@[i].1),
        forall|i: int|
            0 <= i < entries@.len() && is_base_dir(#[trigger] entries@[i].0@, entries@[i].1) ==> base_number(
                entries@[i].0@,
            ) is Some,
    ensures
        exists|i: int|
            0 <= i < entries@.len() && is_base_dir(#[trigger] entries@[i].0@, entries@[i].1) && base_number(
                entries@[i].0@,
            ) == Some(r),
        forall|i: int|
            0 <= i < entries@.len() && is_base_dir(#[trigger] entries@[i].0@, entries@[i].1) ==> base_number(
                entries@[i].0@,
            )->0 <= r,
{
    let mut best: Option<u32> = None;
    let mut i: usize = 0;
    while i < entries.len()
        invariant
            0 <= i <= entries@.len(),
            forall|k: int|
                0 <= k < entries@.len() && is_base_dir(#[trigger] entries@[k].0@, entries@[k].1) ==> base_number(
                    entries@[k].0@,
                ) is Some,
            match best {
                Some(b) => (exists|k: int|
                    0 <= k < i && is_base_dir(#[trigger] entries@[k].0@, entries@[k].1) && base_number(
                        entries@[k].0@,
                    ) == Some(b)) && (forall|k: int|
                    0 <= k < i && is_base_dir(#[trigger] entries@[k].0@, entries@[k].1) ==> base_number(
                        entries@[k].0@,
                    )->0 <= b),
                None => forall|k: int| 0 <= k < i ==> !is_base_dir(#[trigger] entries@[k].0@, entries@[k].1),
            },
        decreases entries@.len() - i,
    {
        let name = entries[i].0.as_str();
        let ghost s = entries@[i as int].0@;
        let starts = entries[i].1 && name.unicode_len() >= 4 && name.get_char(0) == 'B' && name.get_char(1) == 'a'
            && name.get_char(2) == 's' && name.get_char(3) == 'e';
        proof {
            if entries@[i as int].1 && s.len() >= 4 {
                assert(starts == (s.take(4) =~= seq!['B', 'a', 's', 'e']));
            }
            assert(starts == is_base_dir(s, entries@[i as int].1));
        }
        if starts {
            let v = parse_u32_from(name, 4).unwrap();
            match best {
                Some(b) => {
                    if v > b {
                        best = Some(v);
                    }
                },
                None => {
                    best = Some(v);
                },
            }
        }
        i = i + 1;
    }
    best.unwrap()
}

/// The base version and the data hash of each known version of the game.
pub open spec fn spec_version_info(v: Seq<char>) -> Option<(u32, Seq<char>)> {
    if v == "4.11.4"@ {
        Some((78285, "69493AFAB5C7B45DDB2F3442FD60F0CF"@))
    } else if v == "4.11.3"@ {
        Some((77661, "A15B8E4247434B020086354F39856C51"@))
    } else if v == "4.11.2"@ {
        Some((77535, "FC43E0897FCC93E4632AC57CBC5A2137"@))
    } else if v == "4.11.1"@ {
        Some((77474, "F92D1127A291722120AC816F09B2E583"@))
    } else if v == "4.11"@ || v == "4.11.0"@ {
        Some((77379, "70E774E722A58287EF37D487605CD384"@))
    } else if v == "4.10.4"@ {
        Some((76811, "A15B8E4247434B020086354F39856C51"@))
    } else if v == "4.10.3"@ {
        Some((76114, "CDB276D311F707C29BA664B7754A7293"@))
    } else if v == "4.10.2"@ {
        Some((76052, "D0F1A68AA88BA90369A84CD1439AA1C3"@))
    } else if v == "4.10.1"@ {
        Some((75800, "DDFFF9EC4A171459A4F371C6CC189554"@))
    } else if v == "4.10"@ || v == "4.10.0"@ {
        Some((75689, "B89B5D6FA7CBF6452E721311BFBC6CB2"@))
    } else if v == "4.9.3"@ {
        Some((75025, "C305368C63621480462F8F516FB64374"@))
    } else if v == "4.9.2"@ {
        Some((74741, "614480EF79264B5BD084E57F912172FF"@))
    } else if v == "4.9.1"@ {
        Some((74456, "218CB2271D4E2FA083470D30B1A05F02"@))
    } else if v == "4.9"@ || v == "4.9.0"@ {
        Some((74071, "70C74A2DCA8A0D8E7AE8647CAC68ACCA"@))
    } else if v == "4.8.6"@ {
        Some((73620, "AA18FEAD6573C79EF707DF44ABF1BE61"@))
    } else if v == "4.8.5"@ {
        Some((73559, "B2465E73AED597C74D0844112D582595"@))
    } else if v == "4.8.4"@ {
        Some((73286, "CD040C0675FD986ED37A4CA3C88C8EB5"@))
    } else if v == "4.8.3"@ {
        Some((72282, "0F14399BBD0BA528355FF4A8211F845B"@))
    } else if v == "4.8.2"@ {
        Some((71663, "FE90C92716FC6F8F04B74268EC369FA5"@))
    } else if v == "4.8.1"@ {
        Some((71523, "FCAF3F050B7C0CC7ADCF551B61B9B91E"@))
    } else if v == "4.8"@ || v == "4.8.0"@ {
        Some((71061, "760581629FC458A1937A05ED8388725B"@))
    } else {
        None
    }
}

/// The base version and the data hash of a known version of the game.
pub fn get_version_info(version: &str) -> (r: (u32, &'static str))
    requires
        spec_version_info(version@) is Some,
    ensures
        Some((r.0, r.1@)) == spec_version_info(version@),
{
    if str_equal(version, "4.11.4") {
        (78285, "69493AFAB5C7B45DDB2F3442FD60F0CF")
    } else if str_equal(version, "4.11.3") {
        (77661, "A15B8E4247434B020086354F39856C51")
    } else if str_equal(version, "4.11.2") {
        (77535, "FC43E0897FCC93E4632AC57CBC5A2137")
    } else if str_equal(version, "4.11.1") {
        (77474, "F92D1127A291722120AC816F09B2E583")
    } else if str_equal(version, "4.11") || str_equal(version, "4.11.0") {
        (77379, "70E774E722A58287EF37D487605CD384")
    } else if str_equal(version, "4.10.4") {
        (76811, "A15B8E4247434B020086354F39856C51")
    } else if str_equal(version, "4.10.3") {
        (76114, "CDB276D311F707C29BA664B7754A7293")
    } else if str_equal(version, "4.10.2") {
        (76052, "D0F1A68AA88BA90369A84CD1439AA1C3")
    } else if str_equal(version, "4.10.1") {
        (75800, "DDFFF9EC4A171459A4F371C6CC189554")
    } else if str_equal(version, "4.10") || str_equal(version, "4.10.0") {
        (75689, "B89B5D6FA7CBF6452E721311BFBC6CB2")
    } else if str_equal(version, "4.9.3") {
        (75025, "C305368C63621480462F8F516FB64374")
    } else if str_equal(version, "4.9.2") {
        (74741, "614480EF79264B5BD084E57F912172FF")
    } else if str_equal(version, "4.9.1") {
        (74456, "218CB2271D4E2FA083470D30B1A05F02")
    } else if str_equal(version, "4.9") || str_equal(version, "4.9.0") {
        (74071, "70C74A2DCA8A0D8E7AE8647CAC68ACCA")
    } else if str_equal(version, "4.8.6") {
        (73620, "AA18FEAD6573C79EF707DF44ABF1BE61")
    } else if str_equal(version, "4.8.5") {
        (73559, "B2465E73AED597C74D0844112D582595")
    } else if str_equal(version, "4.8.4") {
        (73286, "CD040C0675FD986ED37A4CA3C88C8EB5")
    } else if str_equal(version, "4.8.3") {
        (72282, "0F14399BBD0BA528355FF4A8211F845B")
    } else if str_equal(version, "4.8.2") {
        (71663, "FE90C92716FC6F8F04B74268EC369FA5")
    } else if str_equal(version, "4.8.1") {
        (71523, "FCAF3F050B7C0CC7ADCF551B61B9B91E")
    } else {
        (71061, "760581629FC458A1937A05ED8388725B")
    }
}

} // verus!
