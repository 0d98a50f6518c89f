//! What the reporting collaborator is handed.
use vstd::prelude::*;
use crate::finding::{severity_sorted, sort_by_severity, Vulnerability};

verus! {

pub struct ReportGenerator;

impl ReportGenerator {
    /// The findings in the order a saved report lists them: most severe
    /// first, ties in the order they were found. Writing them out is the
    /// caller's part.
    pub fn save_vulns(vulns: &Vec<Vulnerability>) -> (r: Vec<Vulnerability>)
        ensures
            r@ == severity_sorted(vulns@),
    {
        sort_by_severity(vulns)
    }
}

} // verus!
