use vstd::prelude::*;

use crate::text::str_eq;

verus! {

/// Content rating assigned by the classification service, on the fixed
/// ordinal scale General < Sensitive < Questionable < Explicit.
#[derive(Clone, Copy, Debug, PartialEq, Eq, Structural)]
pub enum Rating {
    General,
    Sensitive,
    Questionable,
    Explicit,
}

impl Rating {
    /// Position on the ordinal scale: General is 0, Explicit is 3.
    pub open spec fn spec_severity(self) -> int {
        match self {
            Rating::General => 0,
            Rating::Sensitive => 1,
            Rating::Questionable => 2,
            Rating::Explicit => 3,
        }
    }

    /// The lowercase name used by the storage layer and by the
    /// classification service's JSON response.
    pub open spec fn spec_dbformat(self) -> Seq<char> {
        match self {
            Rating::General => "general"@,
            Rating::Sensitive => "sensitive"@,
            Rating::Questionable => "questionable"@,
            Rating::Explicit => "explicit"@,
        }
    }

    pub fn severity(&self) -> (n: u32)
        ensures
            n as int == self.spec_severity(),
    {
        match self {
            Rating::General => 0,
            Rating::Sensitive => 1,
            Rating::Questionable => 2,
            Rating::Explicit => 3,
        }
    }

    /// The wire name of the rating, as the storage layer records it.
    pub fn to_dbformat(&self) -> (s: &'static str)
        ensures
            s@ == self.spec_dbformat(),
    {
        match self {
            Rating::General => "general",
            Rating::Sensitive => "sensitive",
            Rating::Questionable => "questionable",
            Rating::Explicit => "explicit",
        }
    }

    /// The capitalized display name, as query strings spell a rating
    /// filter.
    pub open spec fn spec_label(self) -> Seq<char> {
        match self {
            Rating::General => "General"@,
            Rating::Sensitive => "Sensitive"@,
            Rating::Questionable => "Questionable"@,
            Rating::Explicit => "Explicit"@,
        }
    }

    pub fn label(&self) -> (s: &'static str)
        ensures
            s@ == self.spec_label(),
    {
        match self {
            Rating::General => "General",
            Rating::Sensitive => "Sensitive",
            Rating::Questionable => "Questionable",
            Rating::Explicit => "Explicit",
        }
    }

    /// Parses a wire name back into a rating: the exact inverse of
    /// `to_dbformat`, `None` on every other string.
    pub fn from_dbformat(s: &str) -> (r: Option<Rating>)
        ensures
            r is Some <==> (s@ == "general"@ || s@ == "sensitive"@
                || s@ == "questionable"@ || s@ == "explicit"@),
            r matches Some(rating) ==> s@ == rating.spec_dbformat(),
    {
        if str_eq(s, "general") {
            Some(Rating::General)
        } else if str_eq(s, "sensitive") {
            Some(Rating::Sensitive)
        } else if str_eq(s, "questionable") {
            Some(Rating::Questionable)
        } else if str_eq(s, "explicit") {
            Some(Rating::Explicit)
        } else {
            None
        }
    }
}

/// Access level attached to an auth token; guests are the fallback when no
/// token is given or the token is unknown.
#[derive(Clone, Copy, Debug, PartialEq, Eq, Structural)]
pub enum AuthLevel {
    Guest,
    User,
    PrivilegedUser,
    Admin,
}

impl AuthLevel {
    /// Whether a viewer at this level may see an image with the given
    /// rating: privileged users and admins see everything, everyone else
    /// only General and Sensitive content.
    pub open spec fn spec_is_allowed(self, rating: Rating) -> bool {
        match self {
            AuthLevel::Admin => true,
            AuthLevel::PrivilegedUser => true,
            _ => rating == Rating::General || rating == Rating::Sensitive,
        }
    }

    pub fn is_allowed(&self, rating: Rating) -> (allowed: bool)
        ensures
            allowed == self.spec_is_allowed(rating),
    {
        match self {
            AuthLevel::Admin => true,
            AuthLevel::PrivilegedUser => true,
            _ => rating == Rating::General || rating == Rating::Sensitive,
        }
    }
}

} // verus!
