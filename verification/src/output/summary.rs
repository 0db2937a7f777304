//! The summary report: total pages, black & white pages and color pages
//! across the batch, with an optional per-file breakdown.

use vstd::prelude::*;
use vstd::assert_seqs_equal;
use vstd::string::StringExecFns;

use crate::analyzer::PdfAnalysisResult;
use crate::analyzer::PdfAnalysisV;
use crate::config::Config;
use crate::config::ConfigParam;
use crate::config::ConfigValue;
use crate::config::ConfigV;
use crate::config::ConfigValueV;
use crate::config::ParamV;
use crate::config::lookup_modules;
use crate::config::params_view;
use crate::output::DataV;
use crate::output::OutputData;
use crate::output::OutputModule;
use crate::output::OutputRow;
use crate::output::RowV;
use crate::output::file_bw;
use crate::output::file_color;
use crate::output::file_counts;
use crate::output::file_pages;
use crate::output::pairs_view;
use crate::output::results_view;
use crate::output::rows_view;
use crate::output::strings_view;
use crate::output::sum_bw;
use crate::output::sum_color;
use crate::output::sum_pages;
use crate::text::dec_str;
use crate::text::fmt_usize;

verus! {

/// The summary row for one file.
pub open spec fn summary_row(r: PdfAnalysisV) -> RowV {
    RowV {
        filename: r.filename,
        values: seq![
            ("Pages"@, dec_str(file_pages(r.results) as nat)),
            ("B&W"@, dec_str(file_bw(r.results) as nat)),
            ("Color"@, dec_str(file_color(r.results) as nat)),
        ],
    }
}

/// The plain-text line for one file in the breakdown.
pub open spec fn summary_line(r: PdfAnalysisV) -> Seq<char> {
    "  "@ + r.filename + ": "@ + dec_str(file_pages(r.results) as nat) + " pages ("@ + dec_str(
        file_bw(r.results) as nat,
    ) + " B&W, "@ + dec_str(file_color(r.results) as nat) + " color)\n"@
}

/// The plain-text breakdown lines for the whole batch, in batch order.
pub open spec fn summary_lines(rs: Seq<PdfAnalysisV>) -> Seq<char>
    decreases rs.len(),
{
    if rs.len() == 0 {
        Seq::empty()
    } else {
        summary_lines(rs.drop_last()) + summary_line(rs.last())
    }
}

/// The whole plain-text rendering of the summary report.
pub open spec fn summary_text(show_per_pdf: bool, rs: Seq<PdfAnalysisV>) -> Seq<char> {
    "=== Page Summary ===\n\n"@ + (if show_per_pdf {
        "Per-PDF Breakdown:\n"@ + summary_lines(rs) + "\n"@
    } else {
        Seq::<char>::empty()
    }) + "Total: "@ + dec_str(sum_pages(rs) as nat) + " pages ("@ + dec_str(sum_bw(rs) as nat)
        + " B&W, "@ + dec_str(sum_color(rs) as nat) + " color)\n"@
}

/// The whole summary report for a batch.
pub open spec fn summary_data(show_per_pdf: bool, rs: Seq<PdfAnalysisV>) -> DataV {
    DataV {
        title: "Page Summary"@,
        columns: seq!["File"@, "Pages"@, "B&W"@, "Color"@],
        per_pdf: if show_per_pdf {
            rs.map_values(|r: PdfAnalysisV| summary_row(r))
        } else {
            Seq::<RowV>::empty()
        },
        totals: seq![
            ("Total Pages"@, dec_str(sum_pages(rs) as nat)),
            ("Total B&W"@, dec_str(sum_bw(rs) as nat)),
            ("Total Color"@, dec_str(sum_color(rs) as nat)),
        ],
        copyable_text: summary_text(show_per_pdf, rs),
    }
}

/// The summary report module.
pub struct SummaryOutput {
    pub show_per_pdf: bool,
}

impl Default for SummaryOutput {
    /// By default the per-file breakdown is shown.
    fn default() -> (r: SummaryOutput)
        ensures
            r.show_per_pdf,
    {
        SummaryOutput { show_per_pdf: true }
    }
}

impl OutputModule for SummaryOutput {
    open spec fn spec_generate(&self, results: Seq<PdfAnalysisV>) -> DataV {
        summary_data(self.show_per_pdf, results)
    }

    open spec fn spec_id(&self) -> Seq<char> {
        "summary"@
    }

    open spec fn spec_name(&self) -> Seq<char> {
        "Summary"@
    }

    open spec fn spec_params(&self) -> Seq<ParamV> {
        seq![
            (
                "show_per_pdf"@,
                "Show per-PDF breakdown"@,
                ConfigValueV::Bool(true),
                "Display page counts for each individual PDF file"@,
            ),
        ]
    }

    open spec fn spec_config_state(&self) -> Seq<ConfigValueV> {
        seq![ConfigValueV::Bool(self.show_per_pdf)]
    }

    open spec fn spec_configured(&self, config: ConfigV) -> Seq<ConfigValueV> {
        seq![
            ConfigValueV::Bool(
                match lookup_modules(config.outputs, "summary"@, "show_per_pdf"@) {
                    Some(ConfigValueV::Bool(b)) => b,
                    _ => self.show_per_pdf,
                },
            ),
        ]
    }

    fn id(&self) -> (r: &'static str)
        ensures
            r@ == self.spec_id(),
    {
        "summary"
    }

    fn name(&self) -> (r: &'static str)
        ensures
            r@ == self.spec_name(),
    {
        "Summary"
    }

    fn config_params(&self) -> (r: Vec<ConfigParam>)
        ensures
            params_view(r@) == self.spec_params(),
    {
        let mut params: Vec<ConfigParam> = Vec::new();
        params.push(
            ConfigParam {
                key: "show_per_pdf",
                label: "Show per-PDF breakdown",
                default: ConfigValue::Bool(true),
                description: "Display page counts for each individual PDF file",
            },
        );
        proof {
            assert(params_view(params@) =~~= self.spec_params());
        }
        params
    }

    /// Reads this module's one toggle out of its own namespace: the stored
    /// `Bool` under outputs/"summary"/"show_per_pdf" decides, anything else
    /// (absent, other module, other key, other type) leaves the toggle as
    /// it was.
    fn apply_config(&mut self, config: &Config)
        ensures
            final(self).show_per_pdf == (match lookup_modules(
                config@.outputs,
                "summary"@,
                "show_per_pdf"@,
            ) {
                Some(ConfigValueV::Bool(b)) => b,
                _ => old(self).show_per_pdf,
            }),
    {
        if let Some(v) = config.get_output_value("summary", "show_per_pdf") {
            if let Some(b) = v.as_bool() {
                self.show_per_pdf = b;
            }
        }
        proof {
            assert(self.spec_config_state() =~= old(self).spec_configured(config@));
        }
    }

    fn generate(&self, results: &Vec<PdfAnalysisResult>) -> (r: OutputData)
        ensures
            r@ == self.spec_generate(results_view(results@)),
    {
        let ghost rv = results_view(results@);
        let show = self.show_per_pdf;
        let mut total_pages: usize = 0;
        let mut total_bw: usize = 0;
        let mut total_color: usize = 0;
        let mut per_pdf: Vec<OutputRow> = Vec::new();
        let mut lines = String::new();
        let mut i: usize = 0;
        proof {
            assert(rv.take(0) =~= Seq::<PdfAnalysisV>::empty());
            assert(rows_view(per_pdf@) =~= Seq::<RowV>::empty());
        }
        while i < results.len()
            invariant
                i <= results@.len(),
                rv == results_view(results@),
                total_pages as int == sum_pages(rv.take(i as int)),
                total_bw as int == sum_bw(rv.take(i as int)),
                total_color as int == sum_color(rv.take(i as int)),
                show ==> rows_view(per_pdf@) == rv.take(i as int).map_values(
                    |r: PdfAnalysisV| summary_row(r),
                ),
                !show ==> per_pdf@.len() == 0,
                lines@ == (if show {
                    summary_lines(rv.take(i as int))
                } else {
                    Seq::<char>::empty()
                }),
            decreases results@.len() - i,
        {
            let r = &results[i];
            proof {
                assert(rv[i as int] == r@);
                assert(rv.take(i as int + 1).last() == rv[i as int]);
                assert(rv.take(i as int + 1).drop_last() =~= rv.take(i as int));
            }
            let counts = file_counts(r);
            let pages_s = fmt_usize(counts.0);
            let bw_s = fmt_usize(counts.1);
            let color_s = fmt_usize(counts.2);
            total_pages = total_pages.saturating_add(counts.0);
            total_bw = total_bw.saturating_add(counts.1);
            total_color = total_color.saturating_add(counts.2);
            if show {
                let mut values: Vec<(String, String)> = Vec::new();
                values.push((String::from_str("Pages"), pages_s.clone()));
                values.push((String::from_str("B&W"), bw_s.clone()));
                values.push((String::from_str("Color"), color_s.clone()));
                let row = OutputRow { filename: r.filename.clone(), values };
                let ghost rowv = row@;
                proof {
                    assert(pairs_view(row.values@) =~= summary_row(r@).values);
                    assert(rowv =~~= summary_row(r@));
                }
                let ghost per_before = per_pdf@;
                per_pdf.push(row);
                proof {
                    assert_seqs_equal!(
                        rows_view(per_pdf@)
                            == rv.take(i as int + 1).map_values(|r: PdfAnalysisV| summary_row(r)),
                        k => {
                            if k < per_before.len() {
                                assert(per_pdf@[k] == per_before[k]);
                                assert(rows_view(per_before)[k] == per_before[k]@);
                                assert(rv.take(i as int)[k] == rv[k]);
                                assert(rv.take(i as int + 1)[k] == rv[k]);
                            } else {
                                assert(per_pdf@[k] == per_pdf@.last());
                                assert(rv.take(i as int + 1)[k] == rv[i as int]);
                            }
                        }
                    );
                }
                lines.append("  ");
                lines.append(r.filename.as_str());
                lines.append(": ");
                lines.append(pages_s.as_str());
                lines.append(" pages (");
                lines.append(bw_s.as_str());
                lines.append(" B&W, ");
                lines.append(color_s.as_str());
                lines.append(" color)\n");
                proof {
                    assert(lines@ =~= summary_lines(rv.take(i as int)) + summary_line(r@));
                    assert(lines@ =~= summary_lines(rv.take(i as int + 1)));
                }
            }
            i = i + 1;
        }
        proof {
            assert(rv.take(results@.len() as int) =~= rv);
        }
        let mut columns: Vec<String> = Vec::new();
        columns.push(String::from_str("File"));
        columns.push(String::from_str("Pages"));
        columns.push(String::from_str("B&W"));
        columns.push(String::from_str("Color"));
        let tp_s = fmt_usize(total_pages);
        let tb_s = fmt_usize(total_bw);
        let tc_s = fmt_usize(total_color);
        let mut totals: Vec<(String, String)> = Vec::new();
        totals.push((String::from_str("Total Pages"), tp_s.clone()));
        totals.push((String::from_str("Total B&W"), tb_s.clone()));
        totals.push((String::from_str("Total Color"), tc_s.clone()));
        let mut text = String::from_str("=== Page Summary ===\n\n");
        if show {
            text.append("Per-PDF Breakdown:\n");
            text.append(lines.as_str());
            text.append("\n");
        }
        text.append("Total: ");
        text.append(tp_s.as_str());
        text.append(" pages (");
        text.append(tb_s.as_str());
        text.append(" B&W, ");
        text.append(tc_s.as_str());
        text.append(" color)\n");
        let data = OutputData {
            title: String::from_str("Page Summary"),
            columns,
            per_pdf,
            totals,
            copyable_text: text,
        };
        proof {
            assert(strings_view(data.columns@) =~= summary_data(show, rv).columns);
            assert(pairs_view(data.totals@) =~= summary_data(show, rv).totals);
            assert(data.copyable_text@ =~= summary_text(show, rv));
            if !show {
                assert(rows_view(data.per_pdf@) =~= Seq::<RowV>::empty());
            }
            assert(data@ =~~= summary_data(show, rv));
        }
        data
    }
}

} // verus!
