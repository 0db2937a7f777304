//! The page-count analyzer: reports a document's total page count.

use vstd::prelude::*;

use pdfium_render::prelude::PdfDocument;

use crate::analyzer::AnalysisResult;
use crate::analyzer::Analyzer;
use crate::config::Config;
use crate::config::ConfigParam;
use crate::config::ConfigV;
use crate::config::ConfigValueV;
use crate::config::ParamV;
use crate::config::params_view;
use crate::engine::doc_page_count;
use crate::engine::page_count_of;
use crate::error::AppResult;

verus! {

pub struct PageCountAnalyzer;

impl PageCountAnalyzer {
    /// The total page count of `document`.
    pub fn page_total(document: &PdfDocument) -> (total: usize)
        ensures
            total as int == page_count_of(document),
    {
        doc_page_count(document) as usize
    }
}

impl Analyzer for PageCountAnalyzer {
    open spec fn spec_id(&self) -> Seq<char> {
        "page_count"@
    }

    open spec fn spec_name(&self) -> Seq<char> {
        "Page Count"@
    }

    open spec fn valid_result(&self, result: AnalysisResult) -> bool {
        result is PageCount
    }

    open spec fn spec_params(&self) -> Seq<ParamV> {
        Seq::empty()
    }

    open spec fn spec_config_state(&self) -> Seq<ConfigValueV> {
        Seq::empty()
    }

    open spec fn spec_configured(&self, config: ConfigV) -> Seq<ConfigValueV> {
        Seq::empty()
    }

    fn id(&self) -> (r: &'static str)
        ensures
            r@ == self.spec_id(),
    {
        "page_count"
    }

    fn name(&self) -> (r: &'static str)
        ensures
            r@ == self.spec_name(),
    {
        "Page Count"
    }

    /// Always succeeds with the document's total page count: there is no
    /// failure mode beyond an unreadable document, which the caller handles
    /// before any analyzer runs.
    fn analyze(&self, document: &PdfDocument, _path: &str) -> (r: AppResult<AnalysisResult>)
        ensures
            r matches Ok(a) && a matches AnalysisResult::PageCount { total } && total as int
                == page_count_of(document),
    {
        let total = Self::page_total(document);
        Ok(AnalysisResult::PageCount { total })
    }

    fn config_params(&self) -> (r: Vec<ConfigParam>)
        ensures
            params_view(r@) == self.spec_params(),
    {
        let r: Vec<ConfigParam> = Vec::new();
        proof {
            assert(params_view(r@) =~= Seq::<ParamV>::empty());
        }
        r
    }

    fn apply_config(&mut self, _config: &Config)
        ensures
            final(self).spec_config_state() == old(self).spec_configured(_config@),
    {
    }
}

} // verus!
