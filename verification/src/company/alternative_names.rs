//! Command to list the alternative names of a company.

use vstd::prelude::*;

use crate::util::dec_rep;
use crate::util::u64_to_decimal;

verus! {

/// The characters of the endpoint path for the company `company_id`:
/// `/company/{company_id}/alternative_names`.
pub open spec fn spec_path(company_id: u64) -> Seq<char> {
    "/company/"@ + dec_rep(company_id as nat) + "/alternative_names"@
}

/// Command to list the alternative names of a company.
#[derive(Clone, Debug)]
pub struct CompanyAlternativeNames {
    /// ID of the company.
    pub company_id: u64,
}

impl CompanyAlternativeNames {
    /// Builds the command for the company `company_id`.
    pub fn new(company_id: u64) -> (cmd: Self)
        ensures
            cmd.company_id == company_id,
    {
        Self { company_id }
    }

    /// The URL path of the endpoint this command calls.
    pub fn path(&self) -> (p: String)
        ensures
            p@ == spec_path(self.company_id),
    {
        let mut p = String::from_str("/company/");
        p.append(u64_to_decimal(self.company_id).as_str());
        p.append("/alternative_names");
        proof {
            assert(p@ =~= spec_path(self.company_id));
        }
        p
    }

    /// The query parameters of the endpoint: this command takes none.
    pub fn params(&self) -> (q: Vec<(&'static str, String)>)
        ensures
            q@.len() == 0,
    {
        Vec::new()
    }
}

impl Default for CompanyAlternativeNames {
    /// The command for the company with ID zero.
    fn default() -> (cmd: Self)
        ensures
            cmd.company_id == 0,
    {
        Self { company_id: 0 }
    }
}

/// One alternative name of a company.
#[derive(Clone, Debug)]
pub struct CompanyAlternativeName {
    /// The alternative name itself.
    pub name: String,
    /// What kind of name it is; absent when the upstream field is empty.
    pub kind: Option<String>,
}

impl CompanyAlternativeName {
    /// Builds the record from the upstream fields, where an empty `kind`
    /// means an absent one.
    pub fn new(name: String, kind: String) -> (r: Self)
        ensures
            r.name == name,
            kind@.len() == 0 ==> r.kind is None,
            kind@.len() > 0 ==> r.kind == Some(kind),
    {
        Self { name, kind: crate::util::empty_to_none(kind) }
    }
}

/// The response of the alternative-names endpoint.
#[derive(Clone, Debug)]
pub struct CompanyAlternativeNamesResult {
    /// ID of the company.
    pub id: u64,
    /// The alternative names of the company.
    pub results: Vec<CompanyAlternativeName>,
}

} // verus!
