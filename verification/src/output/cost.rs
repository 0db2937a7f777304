//! The cost report: printing-cost estimates for the batch, from a
//! per-page rate for black & white pages and one for color pages.
//!
//! Rates and costs are fixed-point amounts counted in hundredths of a
//! currency unit, rendered with exactly two decimal places; all arithmetic
//! saturates instead of overflowing.

use vstd::prelude::*;
use vstd::assert_seqs_equal;
use vstd::string::StringExecFns;

use crate::analyzer::PdfAnalysisResult;
use crate::analyzer::PdfAnalysisV;
use crate::config::Config;
use crate::config::ConfigParam;
use crate::config::ConfigValue;
use crate::config::ConfigV;
use crate::config::ConfigValueV;
use crate::config::ParamV;
use crate::config::lookup_modules;
use crate::config::params_view;
use crate::output::DataV;
use crate::output::OutputData;
use crate::output::OutputModule;
use crate::output::OutputRow;
use crate::output::RowV;
use crate::output::cap_u64;
use crate::output::file_bw;
use crate::output::file_color;
use crate::output::file_counts;
use crate::output::pairs_view;
use crate::output::results_view;
use crate::output::rows_view;
use crate::output::strings_view;
use crate::text::cents_str;
use crate::text::fmt_cents;

verus! {

/// The black & white cost of one file, in hundredths.
pub open spec fn file_bw_cost(r: PdfAnalysisV, rate_bw: int) -> int {
    cap_u64(file_bw(r.results) * rate_bw)
}

/// The color cost of one file, in hundredths.
pub open spec fn file_color_cost(r: PdfAnalysisV, rate_color: int) -> int {
    cap_u64(file_color(r.results) * rate_color)
}

/// The total cost of one file, in hundredths.
pub open spec fn file_total_cost(r: PdfAnalysisV, rate_bw: int, rate_color: int) -> int {
    cap_u64(file_bw_cost(r, rate_bw) + file_color_cost(r, rate_color))
}

/// The batch's total black & white cost: per-file costs summed left to
/// right, each step saturating at the largest `u64`.
pub open spec fn sum_bw_cost(rs: Seq<PdfAnalysisV>, rate_bw: int) -> int
    decreases rs.len(),
{
    if rs.len() == 0 {
        0
    } else {
        cap_u64(sum_bw_cost(rs.drop_last(), rate_bw) + file_bw_cost(rs.last(), rate_bw))
    }
}

/// The batch's total color cost, saturating as [`sum_bw_cost`] does.
pub open spec fn sum_color_cost(rs: Seq<PdfAnalysisV>, rate_color: int) -> int
    decreases rs.len(),
{
    if rs.len() == 0 {
        0
    } else {
        cap_u64(sum_color_cost(rs.drop_last(), rate_color) + file_color_cost(rs.last(), rate_color))
    }
}

/// The batch's grand total, in hundredths.
pub open spec fn grand_total_cost(rs: Seq<PdfAnalysisV>, rate_bw: int, rate_color: int) -> int {
    cap_u64(sum_bw_cost(rs, rate_bw) + sum_color_cost(rs, rate_color))
}

/// The cost row for one file.
pub open spec fn cost_row(r: PdfAnalysisV, rate_bw: int, rate_color: int) -> RowV {
    RowV {
        filename: r.filename,
        values: seq![
            ("B&W Cost"@, cents_str(file_bw_cost(r, rate_bw) as nat)),
            ("Color Cost"@, cents_str(file_color_cost(r, rate_color) as nat)),
            ("Total"@, cents_str(file_total_cost(r, rate_bw, rate_color) as nat)),
        ],
    }
}

/// The plain-text line for one file in the breakdown.
pub open spec fn cost_line(r: PdfAnalysisV, rate_bw: int, rate_color: int) -> Seq<char> {
    "  "@ + r.filename + ": B&W "@ + cents_str(file_bw_cost(r, rate_bw) as nat) + ", Color "@
        + cents_str(file_color_cost(r, rate_color) as nat) + ", Total "@ + cents_str(
        file_total_cost(r, rate_bw, rate_color) as nat,
    ) + "\n"@
}

/// The plain-text breakdown lines for the whole batch, in batch order.
pub open spec fn cost_lines(rs: Seq<PdfAnalysisV>, rate_bw: int, rate_color: int) -> Seq<char>
    decreases rs.len(),
{
    if rs.len() == 0 {
        Seq::empty()
    } else {
        cost_lines(rs.drop_last(), rate_bw, rate_color) + cost_line(rs.last(), rate_bw, rate_color)
    }
}

/// The whole plain-text rendering of the cost report.
pub open spec fn cost_text(
    show_per_pdf: bool,
    rs: Seq<PdfAnalysisV>,
    rate_bw: int,
    rate_color: int,
) -> Seq<char> {
    "=== Cost Calculation ===\n\n"@ + "Rates: B&W = "@ + cents_str(rate_bw as nat) + "/page, Color = "@
        + cents_str(rate_color as nat) + "/page\n\n"@ + (if show_per_pdf {
        "Per-PDF Breakdown:\n"@ + cost_lines(rs, rate_bw, rate_color) + "\n"@
    } else {
        Seq::<char>::empty()
    }) + "Totals: B&W "@ + cents_str(sum_bw_cost(rs, rate_bw) as nat) + ", Color "@ + cents_str(
        sum_color_cost(rs, rate_color) as nat,
    ) + "\nGrand Total: "@ + cents_str(grand_total_cost(rs, rate_bw, rate_color) as nat) + "\n"@
}

/// The whole cost report for a batch.
pub open spec fn cost_data(
    show_per_pdf: bool,
    rs: Seq<PdfAnalysisV>,
    rate_bw: int,
    rate_color: int,
) -> DataV {
    DataV {
        title: "Cost Calculation"@,
        columns: seq!["File"@, "B&W Cost"@, "Color Cost"@, "Total"@],
        per_pdf: if show_per_pdf {
            rs.map_values(|r: PdfAnalysisV| cost_row(r, rate_bw, rate_color))
        } else {
            Seq::<RowV>::empty()
        },
        totals: seq![
            ("Total B&W Cost"@, cents_str(sum_bw_cost(rs, rate_bw) as nat)),
            ("Total Color Cost"@, cents_str(sum_color_cost(rs, rate_color) as nat)),
            ("Grand Total"@, cents_str(grand_total_cost(rs, rate_bw, rate_color) as nat)),
        ],
        copyable_text: cost_text(show_per_pdf, rs, rate_bw, rate_color),
    }
}

/// Multiplies two amounts, saturating at the largest `u64`.
fn mul_cap(a: u64, b: u64) -> (r: u64)
    ensures
        r as int == cap_u64(a as int * b as int),
{
    match a.checked_mul(b) {
        Some(v) => v,
        None => u64::MAX,
    }
}

/// The cost report module. `cost_bw` and `cost_color` are the per-page
/// rates, in hundredths of a currency unit.
pub struct CostOutput {
    pub cost_bw: u64,
    pub cost_color: u64,
    pub show_per_pdf: bool,
}

impl Default for CostOutput {
    /// The default rates: 0.05 per black & white page and 0.15 per color
    /// page, with the per-file breakdown shown.
    fn default() -> (r: CostOutput)
        ensures
            r.cost_bw == 5,
            r.cost_color == 15,
            r.show_per_pdf,
    {
        CostOutput { cost_bw: 5, cost_color: 15, show_per_pdf: true }
    }
}

impl OutputModule for CostOutput {
    open spec fn spec_generate(&self, results: Seq<PdfAnalysisV>) -> DataV {
        cost_data(self.show_per_pdf, results, self.cost_bw as int, self.cost_color as int)
    }

    open spec fn spec_id(&self) -> Seq<char> {
        "cost"@
    }

    open spec fn spec_name(&self) -> Seq<char> {
        "Cost Calculation"@
    }

    open spec fn spec_params(&self) -> Seq<ParamV> {
        seq![
            (
                "cost_bw"@,
                "Cost per B&W page"@,
                ConfigValueV::Decimal(5),
                "Cost in currency units per black & white page"@,
            ),
            (
                "cost_color"@,
                "Cost per color page"@,
                ConfigValueV::Decimal(15),
                "Cost in currency units per color page"@,
            ),
            (
                "show_per_pdf"@,
                "Show per-PDF breakdown"@,
                ConfigValueV::Bool(true),
                "Display costs for each individual PDF file"@,
            ),
        ]
    }

    open spec fn spec_config_state(&self) -> Seq<ConfigValueV> {
        seq![
            ConfigValueV::Decimal(self.cost_bw as int),
            ConfigValueV::Decimal(self.cost_color as int),
            ConfigValueV::Bool(self.show_per_pdf),
        ]
    }

    open spec fn spec_configured(&self, config: ConfigV) -> Seq<ConfigValueV> {
        seq![
            ConfigValueV::Decimal(
                match lookup_modules(config.outputs, "cost"@, "cost_bw"@) {
                    Some(ConfigValueV::Decimal(d)) => if d >= 0 {
                        d
                    } else {
                        self.cost_bw as int
                    },
                    _ => self.cost_bw as int,
                },
            ),
            ConfigValueV::Decimal(
                match lookup_modules(config.outputs, "cost"@, "cost_color"@) {
                    Some(ConfigValueV::Decimal(d)) => if d >= 0 {
                        d
                    } else {
                        self.cost_color as int
                    },
                    _ => self.cost_color as int,
                },
            ),
            ConfigValueV::Bool(
                match lookup_modules(config.outputs, "cost"@, "show_per_pdf"@) {
                    Some(ConfigValueV::Bool(b)) => b,
                    _ => self.show_per_pdf,
                },
            ),
        ]
    }

    fn id(&self) -> (r: &'static str)
        ensures
            r@ == self.spec_id(),
    {
        "cost"
    }

    fn name(&self) -> (r: &'static str)
        ensures
            r@ == self.spec_name(),
    {
        "Cost Calculation"
    }

    fn config_params(&self) -> (r: Vec<ConfigParam>)
        ensures
            params_view(r@) == self.spec_params(),
    {
        let mut params: Vec<ConfigParam> = Vec::new();
        params.push(
            ConfigParam {
                key: "cost_bw",
                label: "Cost per B&W page",
                default: ConfigValue::Decimal(5),
                description: "Cost in currency units per black & white page",
            },
        );
        params.push(
            ConfigParam {
                key: "cost_color",
                label: "Cost per color page",
                default: ConfigValue::Decimal(15),
                description: "Cost in currency units per color page",
            },
        );
        params.push(
            ConfigParam {
                key: "show_per_pdf",
                label: "Show per-PDF breakdown",
                default: ConfigValue::Bool(true),
                description: "Display costs for each individual PDF file",
            },
        );
        proof {
            assert(params_view(params@) =~~= self.spec_params());
        }
        params
    }

    /// Reads the two rates and the breakdown toggle out of this module's
    /// own namespace: a rate changes only for a stored non-negative
    /// `Decimal` under its key, the toggle only for a stored `Bool`;
    /// anything else (absent, other module, other key, other type, a
    /// negative rate) leaves the current value in place.
    fn apply_config(&mut self, config: &Config)
        ensures
            final(self).cost_bw as int == (match lookup_modules(
                config@.outputs,
                "cost"@,
                "cost_bw"@,
            ) {
                Some(ConfigValueV::Decimal(d)) => if d >= 0 {
                    d
                } else {
                    old(self).cost_bw as int
                },
                _ => old(self).cost_bw as int,
            }),
            final(self).cost_color as int == (match lookup_modules(
                config@.outputs,
                "cost"@,
                "cost_color"@,
            ) {
                Some(ConfigValueV::Decimal(d)) => if d >= 0 {
                    d
                } else {
                    old(self).cost_color as int
                },
                _ => old(self).cost_color as int,
            }),
            final(self).show_per_pdf == (match lookup_modules(
                config@.outputs,
                "cost"@,
                "show_per_pdf"@,
            ) {
                Some(ConfigValueV::Bool(b)) => b,
                _ => old(self).show_per_pdf,
            }),
    {
        if let Some(v) = config.get_output_value("cost", "cost_bw") {
            if let Some(d) = v.as_decimal() {
                if d >= 0 {
                    self.cost_bw = d as u64;
                }
            }
        }
        if let Some(v) = config.get_output_value("cost", "cost_color") {
            if let Some(d) = v.as_decimal() {
                if d >= 0 {
                    self.cost_color = d as u64;
                }
            }
        }
        if let Some(v) = config.get_output_value("cost", "show_per_pdf") {
            if let Some(b) = v.as_bool() {
                self.show_per_pdf = b;
            }
        }
        proof {
            assert(self.spec_config_state() =~= old(self).spec_configured(config@));
        }
    }

    fn generate(&self, results: &Vec<PdfAnalysisResult>) -> (r: OutputData)
        ensures
            r@ == self.spec_generate(results_view(results@)),
    {
        let ghost rv = results_view(results@);
        let show = self.show_per_pdf;
        let rate_bw = self.cost_bw;
        let rate_color = self.cost_color;
        let ghost rbi = rate_bw as int;
        let ghost rci = rate_color as int;
        let mut total_bw_cost: u64 = 0;
        let mut total_color_cost: u64 = 0;
        let mut per_pdf: Vec<OutputRow> = Vec::new();
        let mut lines = String::new();
        let mut i: usize = 0;
        proof {
            assert(rv.take(0) =~= Seq::<PdfAnalysisV>::empty());
            assert(rows_view(per_pdf@) =~= Seq::<RowV>::empty());
        }
        while i < results.len()
            invariant
                i <= results@.len(),
                rv == results_view(results@),
                rbi == rate_bw as int,
                rci == rate_color as int,
                total_bw_cost as int == sum_bw_cost(rv.take(i as int), rbi),
                total_color_cost as int == sum_color_cost(rv.take(i as int), rci),
                show ==> rows_view(per_pdf@) == rv.take(i as int).map_values(
                    |r: PdfAnalysisV| cost_row(r, rbi, rci),
                ),
                !show ==> per_pdf@.len() == 0,
                lines@ == (if show {
                    cost_lines(rv.take(i as int), rbi, rci)
                } else {
                    Seq::<char>::empty()
                }),
            decreases results@.len() - i,
        {
            let r = &results[i];
            proof {
                assert(rv[i as int] == r@);
                assert(rv.take(i as int + 1).last() == rv[i as int]);
                assert(rv.take(i as int + 1).drop_last() =~= rv.take(i as int));
            }
            let counts = file_counts(r);
            let bw_cost = mul_cap(counts.1 as u64, rate_bw);
            let color_cost = mul_cap(counts.2 as u64, rate_color);
            let file_total = bw_cost.saturating_add(color_cost);
            proof {
                assert(bw_cost as int == file_bw_cost(r@, rbi));
                assert(color_cost as int == file_color_cost(r@, rci));
                assert(file_total as int == file_total_cost(r@, rbi, rci));
            }
            let bw_s = fmt_cents(bw_cost);
            let color_s = fmt_cents(color_cost);
            let total_s = fmt_cents(file_total);
            total_bw_cost = total_bw_cost.saturating_add(bw_cost);
            total_color_cost = total_color_cost.saturating_add(color_cost);
            if show {
                let mut values: Vec<(String, String)> = Vec::new();
                values.push((String::from_str("B&W Cost"), bw_s.clone()));
                values.push((String::from_str("Color Cost"), color_s.clone()));
                values.push((String::from_str("Total"), total_s.clone()));
                let row = OutputRow { filename: r.filename.clone(), values };
                let ghost rowv = row@;
                proof {
                    assert(pairs_view(row.values@) =~= cost_row(r@, rbi, rci).values);
                    assert(rowv =~~= cost_row(r@, rbi, rci));
                }
                let ghost per_before = per_pdf@;
                per_pdf.push(row);
                proof {
                    assert_seqs_equal!(
                        rows_view(per_pdf@)
                            == rv.take(i as int + 1).map_values(|r: PdfAnalysisV| cost_row(r, rbi, rci)),
                        k => {
                            if k < per_before.len() {
                                assert(per_pdf@[k] == per_before[k]);
                                assert(rows_view(per_before)[k] == per_before[k]@);
                                assert(rv.take(i as int)[k] == rv[k]);
                                assert(rv.take(i as int + 1)[k] == rv[k]);
                            } else {
                                assert(per_pdf@[k] == per_pdf@.last());
                                assert(rv.take(i as int + 1)[k] == rv[i as int]);
                            }
                        }
                    );
                }
                lines.append("  ");
                lines.append(r.filename.as_str());
                lines.append(": B&W ");
                lines.append(bw_s.as_str());
                lines.append(", Color ");
                lines.append(color_s.as_str());
                lines.append(", Total ");
                lines.append(total_s.as_str());
                lines.append("\n");
                proof {
                    assert(lines@ =~= cost_lines(rv.take(i as int), rbi, rci) + cost_line(
                        r@,
                        rbi,
                        rci,
                    ));
                    assert(lines@ =~= cost_lines(rv.take(i as int + 1), rbi, rci));
                }
            }
            i = i + 1;
        }
        proof {
            assert(rv.take(results@.len() as int) =~= rv);
        }
        let grand_total = total_bw_cost.saturating_add(total_color_cost);
        let mut columns: Vec<String> = Vec::new();
        columns.push(String::from_str("File"));
        columns.push(String::from_str("B&W Cost"));
        columns.push(String::from_str("Color Cost"));
        columns.push(String::from_str("Total"));
        let tb_s = fmt_cents(total_bw_cost);
        let tc_s = fmt_cents(total_color_cost);
        let g_s = fmt_cents(grand_total);
        let mut totals: Vec<(String, String)> = Vec::new();
        totals.push((String::from_str("Total B&W Cost"), tb_s.clone()));
        totals.push((String::from_str("Total Color Cost"), tc_s.clone()));
        totals.push((String::from_str("Grand Total"), g_s.clone()));
        let mut text = String::from_str("=== Cost Calculation ===\n\n");
        text.append("Rates: B&W = ");
        let rb_s = fmt_cents(rate_bw);
        let rc_s = fmt_cents(rate_color);
        text.append(rb_s.as_str());
        text.append("/page, Color = ");
        text.append(rc_s.as_str());
        text.append("/page\n\n");
        if show {
            text.append("Per-PDF Breakdown:\n");
            text.append(lines.as_str());
            text.append("\n");
        }
        text.append("Totals: B&W ");
        text.append(tb_s.as_str());
        text.append(", Color ");
        text.append(tc_s.as_str());
        text.append("\nGrand Total: ");
        text.append(g_s.as_str());
        text.append("\n");
        let data = OutputData {
            title: String::from_str("Cost Calculation"),
            columns,
            per_pdf,
            totals,
            copyable_text: text,
        };
        proof {
            assert(strings_view(data.columns@) =~= cost_data(show, rv, rbi, rci).columns);
            assert(pairs_view(data.totals@) =~= cost_data(show, rv, rbi, rci).totals);
            assert(data.copyable_text@ =~= cost_text(show, rv, rbi, rci));
            if !show {
                assert(rows_view(data.per_pdf@) =~= Seq::<RowV>::empty());
            }
            assert(data@ =~~= cost_data(show, rv, rbi, rci));
        }
        data
    }
}

} // verus!
