//! Building a catalog from an embedded directory of migration scripts.
//!
//! Each subdirectory named `{id}-{name}` holds a mandatory `up.sql` and an
//! optional `down.sql`. The ids must form the consecutive run `1..count`;
//! anything else is rejected with a message naming the offender.

use vstd::prelude::*;

use crate::decimal::{parse_usize, spec_parse_usize, NumParseError};
use crate::errors::Error;
use crate::{MView, M};
use include_dir::Dir;

verus! {

/// Declares the embedded directory type of the `include_dir` crate.
#[verifier::external_type_specification]
#[verifier::external_body]
pub struct ExDir<'a>(Dir<'a>);

/// What the embedded tree shows for one migration subdirectory.
pub struct RawUnit {
    /// The directory's own name, when it can be read as text.
    pub name: Option<&'static str>,
    /// The directory's path rendered for diagnostics.
    pub path_text: String,
    /// The forward script: absent, present but not valid text, or its
    /// contents.
    pub up: Option<Option<&'static str>>,
    /// The reverse script, in the same three states.
    pub down: Option<Option<&'static str>>,
}

/// What one subdirectory shows, at the specification level.
pub struct RawUnitView {
    /// The directory's own name, when it can be read as text.
    pub name: Option<Seq<char>>,
    /// The directory's path rendered for diagnostics.
    pub path_text: Seq<char>,
    /// The forward script.
    pub up: Option<Option<Seq<char>>>,
    /// The reverse script.
    pub down: Option<Option<Seq<char>>>,
}

impl View for RawUnit {
    type V = RawUnitView;

    open spec fn view(&self) -> RawUnitView {
        RawUnitView {
            name: match self.name {
                Some(n) => Some(n@),
                None => None,
            },
            path_text: self.path_text@,
            up: match self.up {
                Some(Some(s)) => Some(Some(s@)),
                Some(None) => Some(None),
                None => None,
            },
            down: match self.down {
                Some(Some(s)) => Some(Some(s@)),
                Some(None) => Some(None),
                None => None,
            },
        }
    }
}

/// The views of a sequence of raw units, in order.
pub open spec fn unit_views(s: Seq<RawUnit>) -> Seq<RawUnitView> {
    Seq::new(s.len(), |i: int| s[i]@)
}

/// What the embedded directory holds: one entry per subdirectory, in the
/// order the tree lists them. The tree is fixed at compile time, so this is
/// a function of the directory value alone.
pub uninterp spec fn dir_units(d: Dir<'static>) -> Seq<RawUnitView>;

/// Reads the migration units out of the embedded tree. Relies on
/// `include_dir`'s `Dir::dirs`, `Dir::path`, `Dir::get_file` and
/// `File::contents_utf8`: one entry per direct subdirectory, each looking up
/// its own `up.sql` and `down.sql` and keeping their contents when they are
/// valid text.
#[verifier::external_body]
fn read_units(dir: &'static Dir<'static>) -> (r: Vec<RawUnit>)
    ensures
        unit_views(r@) == dir_units(*dir),
{
    let mut units = Vec::new();
    for d in dir.dirs() {
        let name = d.path().file_name().and_then(|n| n.to_str());
        let up = d.get_file(d.path().join("up.sql")).map(|f| f.contents_utf8());
        let down = d.get_file(d.path().join("down.sql")).map(|f| f.contents_utf8());
        units.push(RawUnit { name, path_text: format!("{:?}", d.path()), up, down });
    }
    units
}

/// The position of the first separator in a directory name, or the name's
/// length when there is none.
pub open spec fn first_dash_from(name: Seq<char>, i: int) -> int
    decreases name.len() - i,
{
    if i < 0 || i >= name.len() {
        name.len() as int
    } else if name[i] == '-' {
        i
    } else {
        first_dash_from(name, i + 1)
    }
}

/// The message when a directory name holds no id separator.
pub open spec fn spec_msg_no_id(name: Seq<char>) -> Seq<char> {
    "Could not extract migration id from file name "@ + name
}

/// The message when the id part of a directory name does not parse.
pub open spec fn spec_msg_bad_id(name: Seq<char>, e: NumParseError) -> Seq<char> {
    "Could not parse migration id from file name "@ + name + " as usize: "@ + (match e {
        NumParseError::Empty => "cannot parse integer from empty string"@,
        NumParseError::InvalidDigit => "invalid digit found in string"@,
        NumParseError::TooLarge => "number too large to fit in target type"@,
    })
}

/// The message when a directory name carries id zero.
pub open spec fn spec_msg_zero_id(name: Seq<char>) -> Seq<char> {
    name + " has an incorrect migration id: migration id cannot be 0"@
}

/// The id a directory name carries, or the message rejecting it: the digits
/// before the first separator, read as a positive number.
pub open spec fn spec_get_id(name: Seq<char>) -> Result<usize, Seq<char>> {
    let p = first_dash_from(name, 0);
    if p == name.len() {
        Err(spec_msg_no_id(name))
    } else {
        match spec_parse_usize(name.take(p)) {
            Err(e) => Err(spec_msg_bad_id(name, e)),
            Ok(v) => if v == 0 {
                Err(spec_msg_zero_id(name))
            } else {
                Ok(v)
            },
        }
    }
}

/// Reads the migration id out of a directory name.
fn get_id(file_name: &'static str) -> (r: Result<usize, Error>)
    ensures
        spec_get_id(file_name@) matches Ok(v) ==> r == Ok::<usize, Error>(v),
        spec_get_id(file_name@) matches Err(m) ==> r matches Err(Error::FileLoad(s)) && s@ == m,
{
    let n = file_name.unicode_len();
    let mut p: usize = 0;
    while p < n
        invariant_except_break
            0 <= p <= n,
            n == file_name@.len(),
            first_dash_from(file_name@, 0) == first_dash_from(file_name@, p as int),
        ensures
            p <= n,
            n == file_name@.len(),
            first_dash_from(file_name@, 0) == p,
        decreases n - p,
    {
        if file_name.get_char(p) == '-' {
            break ;
        }
        p = p + 1;
    }
    if p == n {
        let mut s = String::from_str("Could not extract migration id from file name ");
        s.append(file_name);
        return Err(Error::FileLoad(s));
    }
    let id_part = file_name.substring_char(0, p);
    proof {
        assert(id_part@ == file_name@.take(p as int));
    }
    match parse_usize(id_part) {
        Err(e) => {
            let mut s = String::from_str("Could not parse migration id from file name ");
            s.append(file_name);
            s.append(" as usize: ");
            match e {
                NumParseError::Empty => s.append("cannot parse integer from empty string"),
                NumParseError::InvalidDigit => s.append("invalid digit found in string"),
                NumParseError::TooLarge => s.append("number too large to fit in target type"),
            }
            Err(Error::FileLoad(s))
        },
        Ok(v) => {
            if v == 0 {
                let mut s = String::from_str(file_name);
                s.append(" has an incorrect migration id: migration id cannot be 0");
                Err(Error::FileLoad(s))
            } else {
                Ok(v)
            }
        },
    }
}

/// The migration one valid unit stands for: its forward script, its reverse
/// script when a file was given — a unit without one cannot be reverted —
/// and the directory name as the comment.
pub open spec fn spec_unit_m(name: Seq<char>, up: Seq<char>, down: Option<Option<Seq<char>>>) -> MView {
    MView {
        up: up,
        down: match down {
            Some(Some(d)) => Some(d),
            _ => None,
        },
        up_hook: false,
        down_hook: false,
        foreign_key_check: false,
        comment: Some(name),
    }
}

/// The id and migration one unit yields, or the message rejecting it. The
/// checks run in a fixed order: a readable name, then a readable forward
/// script, then a readable reverse script, then a well-formed id.
pub open spec fn spec_unit_check(u: RawUnitView) -> Result<(usize, MView), Seq<char>> {
    match u.name {
        None => Err("Could not extract file name from "@ + u.path_text),
        Some(name) => match u.up {
            None => Err("Missing upward migration file for migration "@ + name),
            Some(None) => Err("Could not load contents from "@ + name + "/up.sql"@),
            Some(Some(up)) => match u.down {
                Some(None) => Err("Could not load contents from "@ + name + "/down.sql"@),
                _ => match spec_get_id(name) {
                    Err(m) => Err(m),
                    Ok(id) => Ok((id, spec_unit_m(name, up, u.down))),
                },
            },
        },
    }
}

/// The message rejecting ids that do not form a consecutive run.
pub open spec fn spec_msg_non_consecutive() -> Seq<char> {
    "Migration ids must be consecutive numbers"@
}

/// The message rejecting a second unit with the same id.
pub open spec fn spec_msg_multiple(id: usize) -> Seq<char> {
    "Multiple migrations detected for migration id: "@ + crate::decimal::dec_rep(id as nat)
}

/// The message rejecting a directory with no units at all.
pub open spec fn spec_msg_empty() -> Seq<char> {
    "Directory does not contain any migration files"@
}

/// Places each unit's migration into the slot its id names, one unit at a
/// time, rejecting ids beyond the unit count and ids seen twice.
pub open spec fn spec_fill(
    units: Seq<RawUnitView>,
    i: int,
    slots: Seq<Option<MView>>,
) -> Result<Seq<Option<MView>>, Seq<char>>
    decreases units.len() - i,
{
    if i < 0 || i >= units.len() {
        Ok(slots)
    } else {
        match spec_unit_check(units[i]) {
            Err(m) => Err(m),
            Ok((id, m)) => {
                if id - 1 >= slots.len() {
                    Err(spec_msg_non_consecutive())
                } else if slots[id - 1] is Some {
                    Err(spec_msg_multiple(id))
                } else {
                    spec_fill(units, i + 1, slots.update(id - 1, Some(m)))
                }
            },
        }
    }
}

/// The catalog a directory listing loads to, or the message rejecting it:
/// every unit placed at the slot its id names, every slot filled, at least
/// one unit present.
pub open spec fn spec_load(units: Seq<RawUnitView>) -> Result<Seq<MView>, Seq<char>> {
    match spec_fill(units, 0, Seq::new(units.len(), |i: int| None)) {
        Err(m) => Err(m),
        Ok(slots) => {
            if forall|i: int| 0 <= i < slots.len() ==> (#[trigger] slots[i]) is None {
                Err(spec_msg_empty())
            } else if exists|i: int| 0 <= i < slots.len() && (#[trigger] slots[i]) is None {
                Err(spec_msg_non_consecutive())
            } else {
                Ok(Seq::new(slots.len(), |i: int| slots[i].unwrap()))
            }
        },
    }
}

/// The views of a sequence of optional migrations, in order.
pub open spec fn opt_views(ms: Seq<Option<M>>) -> Seq<Option<MView>> {
    Seq::new(
        ms.len(),
        |i: int|
            match ms[i] {
                Some(m) => Some(m@),
                None => None,
            },
    )
}

/// Builds the checked migration of one unit.
fn unit_to_m(name: &'static str, up: &'static str, down: &RawUnit) -> (r: M<'static>)
    ensures
        r@ == spec_unit_m(name@, up@, down@.down),
{
    let m = M::up(up).comment(name);
    let m = match down.down {
        Some(Some(d)) => m.down(d),
        _ => m,
    };
    proof {
        assert(m@ =~= spec_unit_m(name@, up@, down@.down));
    }
    m
}

/// Loads the units of an embedded directory into migration slots addressed
/// by id, checking each unit on the way; used by the catalog and by the
/// builder.
pub(crate) fn load_slots(dir: &'static Dir<'static>) -> (r: Result<Vec<Option<M<'static>>>, Error>)
    ensures
        spec_fill(
            dir_units(*dir),
            0,
            Seq::new(dir_units(*dir).len(), |i: int| None),
        ) matches Ok(slots) ==> r matches Ok(v) && opt_views(v@) == slots,
        spec_fill(
            dir_units(*dir),
            0,
            Seq::new(dir_units(*dir).len(), |i: int| None),
        ) matches Err(m) ==> r matches Err(Error::FileLoad(s)) && s@ == m,
{
    let ghost units_spec = dir_units(*dir);
    let units = read_units(dir);
    let n = units.len();
    let mut slots: Vec<Option<M<'static>>> = Vec::new();
    let mut k: usize = 0;
    while k < n
        invariant
            k <= n,
            slots@.len() == k,
            forall|j: int| 0 <= j < k ==> (#[trigger] slots@[j]) is None,
        decreases n - k,
    {
        slots.push(None);
        k = k + 1;
    }
    proof {
        assert(unit_views(units@) == units_spec);
        assert(opt_views(slots@) =~= Seq::new(units_spec.len(), |i: int| None::<MView>));
    }
    let ghost init_slots = opt_views(slots@);
    let mut i: usize = 0;
    while i < n
        invariant
            i <= n,
            n == units@.len(),
            units_spec == dir_units(*dir),
            init_slots == Seq::new(units_spec.len(), |j: int| None::<MView>),
            unit_views(units@) == units_spec,
            slots@.len() == n,
            spec_fill(units_spec, 0, init_slots) == spec_fill(
                units_spec,
                i as int,
                opt_views(slots@),
            ),
        decreases n - i,
    {
        let ghost pre_slots = opt_views(slots@);
        let u = &units[i];
        proof {
            assert(u@ == units_spec[i as int]);
        }
        let name = match u.name {
            Some(name) => name,
            None => {
                let mut s = String::from_str("Could not extract file name from ");
                s.append(u.path_text.as_str());
                return Err(Error::FileLoad(s));
            },
        };
        let up = match u.up {
            Some(Some(up)) => up,
            Some(None) => {
                let mut s = String::from_str("Could not load contents from ");
                s.append(name);
                s.append("/up.sql");
                return Err(Error::FileLoad(s));
            },
            None => {
                let mut s = String::from_str("Missing upward migration file for migration ");
                s.append(name);
                return Err(Error::FileLoad(s));
            },
        };
        if let Some(None) = u.down {
            let mut s = String::from_str("Could not load contents from ");
            s.append(name);
            s.append("/down.sql");
            return Err(Error::FileLoad(s));
        }
        let id = match get_id(name) {
            Ok(id) => id,
            Err(e) => {
                return Err(e);
            },
        };
        let m = unit_to_m(name, up, u);
        if id - 1 >= slots.len() {
            return Err(Error::FileLoad(String::from_str("Migration ids must be consecutive numbers")));
        }
        if slots[id - 1].is_some() {
            let mut s = String::from_str("Multiple migrations detected for migration id: ");
            s.append(crate::decimal::usize_to_string(id).as_str());
            return Err(Error::FileLoad(s));
        }
        slots.set(id - 1, Some(m));
        proof {
            assert(opt_views(slots@) =~= pre_slots.update(id - 1, Some(m@)));
        }
        i = i + 1;
    }
    proof {
        assert(spec_fill(units_spec, n as int, opt_views(slots@)) == Ok::<_, Seq<char>>(
            opt_views(slots@),
        ));
    }
    Ok(slots)
}

/// Loads a catalog from an embedded directory: the checked units, compacted
/// in id order.
pub(crate) fn from_directory(dir: &'static Dir<'static>) -> (r: Result<Vec<M<'static>>, Error>)
    ensures
        spec_load(dir_units(*dir)) matches Ok(cat) ==> r matches Ok(v) && crate::views_of(v@)
            == cat,
        spec_load(dir_units(*dir)) matches Err(m) ==> r matches Err(Error::FileLoad(s)) && s@
            == m,
{
    let slots = match load_slots(dir) {
        Ok(slots) => slots,
        Err(e) => {
            return Err(e);
        },
    };
    let n = slots.len();
    let ghost filled = opt_views(slots@);
    let mut all_none = true;
    let mut any_none = false;
    let mut i: usize = 0;
    while i < n
        invariant
            i <= n,
            n == slots@.len(),
            filled == opt_views(slots@),
            all_none <==> (forall|j: int| 0 <= j < i ==> (#[trigger] filled[j]) is None),
            any_none <==> (exists|j: int| 0 <= j < i && (#[trigger] filled[j]) is None),
        decreases n - i,
    {
        proof {
            assert(filled[i as int] == opt_views(slots@)[i as int]);
        }
        if slots[i].is_some() {
            all_none = false;
        } else {
            any_none = true;
        }
        i = i + 1;
    }
    if all_none {
        return Err(Error::FileLoad(String::from_str("Directory does not contain any migration files")));
    }
    if any_none {
        return Err(Error::FileLoad(String::from_str("Migration ids must be consecutive numbers")));
    }
    let mut out: Vec<M<'static>> = Vec::new();
    let mut rest = slots;
    let mut k: usize = 0;
    while k < n
        invariant
            k <= n,
            rest@.len() == n - k,
            n == filled.len(),
            opt_views(rest@) == filled.skip(k as int),
            forall|j: int| 0 <= j < n ==> !((#[trigger] filled[j]) is None),
            out@.len() == k,
            forall|j: int| 0 <= j < k ==> (#[trigger] out@[j])@ == filled[j].unwrap(),
        decreases n - k,
    {
        proof {
            assert(opt_views(rest@)[0] == filled[k as int]);
        }
        let ghost pre_rest = rest@;
        let slot = rest.remove(0);
        match slot {
            Some(m) => {
                out.push(m);
            },
            None => {
                proof {
                    assert(false);
                }
            },
        }
        proof {
            assert forall|j: int| 0 <= j < rest@.len() implies opt_views(rest@)[j] == filled.skip(
                k + 1,
            )[j] by {
                assert(rest@[j] == pre_rest[j + 1]);
                assert(opt_views(pre_rest)[j + 1] == filled.skip(k as int)[j + 1]);
            }
            assert(opt_views(rest@) =~= filled.skip(k + 1));
        }
        k = k + 1;
    }
    proof {
        let cat = Seq::new(filled.len(), |i: int| filled[i].unwrap());
        assert forall|j: int| 0 <= j < filled.len() implies crate::views_of(out@)[j] == cat[j] by {
            assert(crate::views_of(out@)[j] == out@[j]@);
        }
        assert(crate::views_of(out@) =~= cat);
    }
    Ok(out)
}

} // verus!
