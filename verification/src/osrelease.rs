//! The identification record: a key/value mapping read from the
//! well-known `key=value` identification file, with the recognised keys
//! `ID`, `NAME`, `VARIANT` and `ID_LIKE`.
//!
//! The file format is line-based: blank lines and lines opening with `#`
//! or `;` say nothing; a `[` opens a section, which ends the primary
//! (general) section this record is read from; every other line must hold
//! a `=`, with the key to its left and the value, optionally quoted, to
//! its right. A later assignment to a key overrides an earlier one.

use vstd::prelude::*;

use crate::text::{
    find_char, find_char_at, line_seqs, split_lines, str_eq, trim_str, trimmed, unquote_str,
    unquoted, views_of,
};
use crate::TopgradeError;

verus! {

/// Mathematical view of an [`OsReleaseInfo`].
#[verifier::ext_equal]
pub struct OsReleaseView {
    pub id: Option<Seq<char>>,
    pub name: Option<Seq<char>>,
    pub variant: Option<Seq<char>>,
    pub id_like: Option<Seq<char>>,
    /// Whether the primary section held at least one assignment.
    pub entries: bool,
}

/// An identification record: the recognised keys of the identification
/// file, plus whether its primary section held any assignment at all.
#[derive(Debug)]
pub struct OsReleaseInfo {
    pub id: Option<String>,
    pub name: Option<String>,
    pub variant: Option<String>,
    pub id_like: Option<String>,
    pub entries: bool,
}

impl View for OsReleaseInfo {
    type V = OsReleaseView;

    open spec fn view(&self) -> OsReleaseView {
        OsReleaseView {
            id: match self.id {
                Some(ref s) => Some(s@),
                None => None,
            },
            name: match self.name {
                Some(ref s) => Some(s@),
                None => None,
            },
            variant: match self.variant {
                Some(ref s) => Some(s@),
                None => None,
            },
            id_like: match self.id_like {
                Some(ref s) => Some(s@),
                None => None,
            },
            entries: self.entries,
        }
    }
}

/// The record with nothing assigned.
pub open spec fn empty_record() -> OsReleaseView {
    OsReleaseView { id: None, name: None, variant: None, id_like: None, entries: false }
}

/// The trimmed line is blank or a comment and says nothing.
pub open spec fn is_skip_line(l: Seq<char>) -> bool {
    let t = trimmed(l);
    t.len() == 0 || t[0] == '#' || t[0] == ';'
}

/// The trimmed line opens a section, ending the primary section.
pub open spec fn is_section_line(l: Seq<char>) -> bool {
    let t = trimmed(l);
    !is_skip_line(l) && t[0] == '['
}

/// The trimmed line holds an assignment `key=value`.
pub open spec fn is_pair_line(l: Seq<char>) -> bool {
    let t = trimmed(l);
    !is_skip_line(l) && !is_section_line(l) && find_char(t, '=', 0) < t.len()
}

/// The key of an assignment line: what stands left of the first `=`,
/// trimmed.
pub open spec fn pair_key(l: Seq<char>) -> Seq<char> {
    let t = trimmed(l);
    trimmed(t.subrange(0, find_char(t, '=', 0)))
}

/// The value of an assignment line: what stands right of the first `=`,
/// trimmed and unquoted.
pub open spec fn pair_val(l: Seq<char>) -> Seq<char> {
    let t = trimmed(l);
    unquoted(trimmed(t.subrange(find_char(t, '=', 0) + 1, t.len() as int)))
}

/// One assignment applied to the record: a recognised key stores its
/// value, any key at all marks the section non-empty.
pub open spec fn apply_pair(r: OsReleaseView, k: Seq<char>, v: Seq<char>) -> OsReleaseView {
    OsReleaseView {
        id: if k == "ID"@ {
            Some(v)
        } else {
            r.id
        },
        name: if k == "NAME"@ {
            Some(v)
        } else {
            r.name
        },
        variant: if k == "VARIANT"@ {
            Some(v)
        } else {
            r.variant
        },
        id_like: if k == "ID_LIKE"@ {
            Some(v)
        } else {
            r.id_like
        },
        entries: true,
    }
}

/// The record read from the lines `ls` starting at line `i` with the
/// assignments so far in `acc`; a malformed line is an error, a section
/// line ends the reading.
pub open spec fn fold_lines(ls: Seq<Seq<char>>, i: int, acc: OsReleaseView) -> Result<
    OsReleaseView,
    (),
>
    decreases ls.len() - i,
{
    if i < 0 || i >= ls.len() {
        Ok(acc)
    } else if is_section_line(ls[i]) {
        Ok(acc)
    } else if is_skip_line(ls[i]) {
        fold_lines(ls, i + 1, acc)
    } else if is_pair_line(ls[i]) {
        fold_lines(ls, i + 1, apply_pair(acc, pair_key(ls[i]), pair_val(ls[i])))
    } else {
        Err(())
    }
}

/// The identification record read from the whole file contents `s`.
pub open spec fn spec_parse_os_release(s: Seq<char>) -> Result<OsReleaseView, ()> {
    fold_lines(line_seqs(s), 0, empty_record())
}

impl OsReleaseInfo {
    /// The `ID` value, if assigned.
    pub fn id(&self) -> (r: &Option<String>)
        ensures
            r == &self.id,
            self@.id matches Some(v) ==> r matches Some(s) && s@ == v,
            self@.id is None ==> r is None,
    {
        &self.id
    }

    /// The `NAME` value, if assigned.
    pub fn name(&self) -> (r: &Option<String>)
        ensures
            self@.name matches Some(v) ==> r matches Some(s) && s@ == v,
            self@.name is None ==> r is None,
    {
        &self.name
    }

    /// The `VARIANT` value, if assigned.
    pub fn variant(&self) -> (r: &Option<String>)
        ensures
            self@.variant matches Some(v) ==> r matches Some(s) && s@ == v,
            self@.variant is None ==> r is None,
    {
        &self.variant
    }

    /// The `ID_LIKE` value, if assigned.
    pub fn id_like(&self) -> (r: &Option<String>)
        ensures
            self@.id_like matches Some(v) ==> r matches Some(s) && s@ == v,
            self@.id_like is None ==> r is None,
    {
        &self.id_like
    }

    /// Whether the primary section held at least one assignment.
    pub fn has_entries(&self) -> (r: bool)
        ensures
            r == self@.entries,
    {
        self.entries
    }

    /// Builds a record directly from its parts, as a caller that already
    /// holds the identification facts would.
    pub fn from_parts(
        id: Option<String>,
        name: Option<String>,
        variant: Option<String>,
        id_like: Option<String>,
    ) -> (r: OsReleaseInfo)
        ensures
            r@.id == (match id {
                Some(s) => Some(s@),
                None => None::<Seq<char>>,
            }),
            r@.name == (match name {
                Some(s) => Some(s@),
                None => None::<Seq<char>>,
            }),
            r@.variant == (match variant {
                Some(s) => Some(s@),
                None => None::<Seq<char>>,
            }),
            r@.id_like == (match id_like {
                Some(s) => Some(s@),
                None => None::<Seq<char>>,
            }),
            r@.entries,
    {
        OsReleaseInfo { id, name, variant, id_like, entries: true }
    }

    /// Reads the identification record from the file contents `s`.
    ///
    /// Returns the record of [`spec_parse_os_release`], or
    /// [`TopgradeError::InvalidOsRelease`] exactly when some line of the
    /// primary section is neither blank, comment, section opening nor
    /// assignment.
    pub fn parse(s: &str) -> (r: Result<OsReleaseInfo, TopgradeError>)
        ensures
            match r {
                Ok(rec) => spec_parse_os_release(s@) == Ok::<OsReleaseView, ()>(rec@),
                Err(e) => spec_parse_os_release(s@) is Err && e
                    == TopgradeError::InvalidOsRelease,
            },
    {
        let ls = split_lines(s);
        let ghost lsv = line_seqs(s@);
        let mut rec = OsReleaseInfo {
            id: None,
            name: None,
            variant: None,
            id_like: None,
            entries: false,
        };
        assert(rec@ =~= empty_record());
        let mut i: usize = 0;
        while i < ls.len()
            invariant
                i <= ls.len(),
                views_of(ls@) == lsv,
                fold_lines(lsv, i as int, rec@) == spec_parse_os_release(s@),
            decreases ls.len() - i,
        {
            let ghost l = lsv[i as int];
            assert(l == ls@[i as int]@);
            let t = trim_str(ls[i].as_str());
            let tn = t.as_str().unicode_len();
            if tn == 0 {
                assert(is_skip_line(l));
                i += 1;
                continue;
            }
            let c0 = t.as_str().get_char(0);
            if c0 == '#' || c0 == ';' {
                assert(is_skip_line(l));
                i += 1;
                continue;
            }
            assert(!is_skip_line(l));
            if c0 == '[' {
                assert(is_section_line(l));
                return Ok(rec);
            }
            assert(!is_section_line(l));
            let e = find_char_at(t.as_str(), '=');
            if e == tn {
                assert(!is_pair_line(l));
                return Err(TopgradeError::InvalidOsRelease);
            }
            assert(is_pair_line(l));
            let key = trim_str(t.as_str().substring_char(0, e));
            let raw = trim_str(t.as_str().substring_char(e + 1, tn));
            let val = unquote_str(raw.as_str());
            assert(key@ == pair_key(l));
            assert(val@ == pair_val(l));
            let ghost before = rec@;
            let k_id = str_eq(key.as_str(), "ID");
            let k_name = str_eq(key.as_str(), "NAME");
            let k_variant = str_eq(key.as_str(), "VARIANT");
            let k_id_like = str_eq(key.as_str(), "ID_LIKE");
            if k_id {
                rec.id = Some(val.clone());
            }
            if k_name {
                rec.name = Some(val.clone());
            }
            if k_variant {
                rec.variant = Some(val.clone());
            }
            if k_id_like {
                rec.id_like = Some(val);
            }
            rec.entries = true;
            assert(rec@ =~= apply_pair(before, pair_key(l), pair_val(l)));
            i += 1;
        }
        Ok(rec)
    }
}

} // verus!
