//! Routing of named members (such as `rom.c5`) into the two planes.

use vstd::prelude::*;
use vstd::string::StrSliceExecFns;
use crate::planes::CPair;
use crate::sprite::CPAIR_CHUNK_WIDTH;

verus! {

/// Which plane a member fills.
#[derive(Clone, Copy, Debug, PartialEq, Eq, Structural)]
pub enum PlaneSlot {
    Odd,
    Even,
}

/// What is to be done with a member, by its extension.
#[derive(Clone, Copy, Debug, PartialEq, Eq, Structural)]
pub enum MemberRoute {
    /// Not plane data: no extension, or one that does not start with `c`.
    Skip,
    /// Plane data for the given slot.
    Plane(PlaneSlot),
    /// Plane data in a layout that is not handled (`c1`, `c7`, ...).
    Unsupported,
}

/// Why a member could not be taken into a `CPair`.
#[derive(Clone, Copy, Debug, PartialEq, Eq, Structural)]
pub enum IngestError {
    /// The member's byte count (held here) is not a multiple of the chunk width.
    MalformedPlaneLength(usize),
    /// The member is plane data with an unsupported extension.
    UnsupportedTag,
}

/// Position of the last `.` in `s`, if any.
pub open spec fn last_dot(s: Seq<char>) -> Option<int>
    decreases s.len(),
{
    if s.len() == 0 {
        None
    } else if s.last() == '.' {
        Some(s.len() - 1)
    } else {
        last_dot(s.drop_last())
    }
}

/// The route that an extension (the text after the last dot) selects.
pub open spec fn route_of_extension(ext: Seq<char>) -> MemberRoute {
    if ext == seq!['c', '5'] {
        MemberRoute::Plane(PlaneSlot::Odd)
    } else if ext == seq!['c', '6'] {
        MemberRoute::Plane(PlaneSlot::Even)
    } else if ext.len() > 0 && ext[0] == 'c' {
        MemberRoute::Unsupported
    } else {
        MemberRoute::Skip
    }
}

/// The route of a member called `name`.
pub open spec fn route_of_name(name: Seq<char>) -> MemberRoute {
    match last_dot(name) {
        None => MemberRoute::Skip,
        Some(d) => route_of_extension(name.subrange(d + 1, name.len() as int)),
    }
}

/// Decides by its extension what a member called `name` is.
pub fn route_member(name: &str) -> (r: MemberRoute)
    ensures
        r == route_of_name(name@),
{
    let len = name.unicode_len();
    let mut j: usize = len;
    assert(name@.subrange(0, len as int) =~= name@);
    // Walk back from the end to the last dot.
    while j > 0 && name.get_char(j - 1) != '.'
        invariant
            len == name@.len(),
            j <= len,
            last_dot(name@) == last_dot(name@.subrange(0, j as int)),
        decreases j,
    {
        assert(name@.subrange(0, j as int - 1) =~= name@.subrange(0, j as int).drop_last());
        j -= 1;
    }
    if j == 0 {
        assert(name@.subrange(0, 0) =~= Seq::<char>::empty());
        return MemberRoute::Skip;
    }
    assert(last_dot(name@) == Some(j as int - 1));
    let ext = Ghost(name@.subrange(j as int, len as int));
    let ext_len = len - j;
    if ext_len == 0 || name.get_char(j) != 'c' {
        assert(ext@ != seq!['c', '5'] && ext@ != seq!['c', '6']) by {
            if ext_len > 0 {
                assert(ext@[0] == name@[j as int]);
                assert(seq!['c', '5'][0] == 'c');
                assert(seq!['c', '6'][0] == 'c');
            } else {
                assert(ext@.len() == 0);
            }
        }
        return MemberRoute::Skip;
    }
    if ext_len == 2 {
        let tag = name.get_char(j + 1);
        if tag == '5' {
            assert(ext@ =~= seq!['c', '5']);
            return MemberRoute::Plane(PlaneSlot::Odd);
        } else if tag == '6' {
            assert(ext@ =~= seq!['c', '6']);
            return MemberRoute::Plane(PlaneSlot::Even);
        }
        assert(ext@[1] != seq!['c', '5'][1]);
        assert(ext@[1] != seq!['c', '6'][1]);
    } else {
        assert(ext@.len() != seq!['c', '5'].len());
    }
    MemberRoute::Unsupported
}

impl CPair {
    /// Takes the bytes of a member called `name` into the plane its extension
    /// selects. Members that are not plane data are ignored; plane data whose
    /// length is not a multiple of 64 bytes, or whose extension selects no
    /// supported plane, is refused and leaves both planes as they were.
    pub fn ingest(&mut self, name: &str, contents: Vec<u8>) -> (r: Result<(), IngestError>)
        ensures
            route_of_name(name@) == MemberRoute::Skip ==> r is Ok && *final(self) == *old(self),
            route_of_name(name@) != MemberRoute::Skip && contents@.len() % CPAIR_CHUNK_WIDTH as nat
                != 0 ==> r == Err::<(), IngestError>(IngestError::MalformedPlaneLength(
                contents@.len() as usize,
            )) && *final(self) == *old(self),
            route_of_name(name@) == MemberRoute::Unsupported && contents@.len()
                % CPAIR_CHUNK_WIDTH as nat == 0 ==> r == Err::<(), IngestError>(
                IngestError::UnsupportedTag,
            ) && *final(self) == *old(self),
            contents@.len() % CPAIR_CHUNK_WIDTH as nat == 0 && route_of_name(name@)
                == MemberRoute::Plane(PlaneSlot::Odd) ==> r is Ok && final(self).odd@
                == contents@ && final(self).even@ == old(self).even@,
            contents@.len() % CPAIR_CHUNK_WIDTH as nat == 0 && route_of_name(name@)
                == MemberRoute::Plane(PlaneSlot::Even) ==> r is Ok && final(self).even@
                == contents@ && final(self).odd@ == old(self).odd@,
    {
        let route = route_member(name);
        if route == MemberRoute::Skip {
            return Ok(());
        }
        if contents.len() % CPAIR_CHUNK_WIDTH != 0 {
            return Err(IngestError::MalformedPlaneLength(contents.len()));
        }
        match route {
            MemberRoute::Plane(PlaneSlot::Odd) => {
                self.odd = contents;
                Ok(())
            },
            MemberRoute::Plane(PlaneSlot::Even) => {
                self.even = contents;
                Ok(())
            },
            _ => Err(IngestError::UnsupportedTag),
        }
    }
}

} // verus!
