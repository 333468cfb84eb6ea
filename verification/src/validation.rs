//! Field rules of the request bodies and the report of the rules that failed.
use vstd::prelude::*;

use crate::text::concat_str;

verus! {

/// One failed rule: its code (`length`, `email`, `range`), its message, if the
/// rule has one, and, for a rule without a message, its parameters as the report
/// writes them (empty for a rule with a message, whose text does not show them).
pub struct FieldError {
    pub code: String,
    pub message: Option<String>,
    pub params: String,
}

/// The failed rules of one field, in the order the rules are declared.
pub struct FieldErrors {
    pub field: String,
    pub errors: Vec<FieldError>,
}

/// The failed rules of a request body, field by field in declaration order;
/// fields whose rules all hold are left out.
pub struct ValidationErrors {
    pub fields: Vec<FieldErrors>,
}

/// A failed rule as plain text: code, optional message, and written parameters.
pub type RuleView = (Seq<char>, Option<Seq<char>>, Seq<char>);

/// A field's failures as plain text: the field's name and its failed rules.
pub type FieldView = (Seq<char>, Seq<RuleView>);

pub open spec fn opt_seq(o: Option<String>) -> Option<Seq<char>> {
    match o {
        Some(s) => Some(s@),
        None => None,
    }
}

impl View for FieldError {
    type V = RuleView;

    open spec fn view(&self) -> RuleView {
        (self.code@, opt_seq(self.message), self.params@)
    }
}

impl View for FieldErrors {
    type V = FieldView;

    open spec fn view(&self) -> FieldView {
        (self.field@, self.errors@.map_values(|e: FieldError| e@))
    }
}

impl View for ValidationErrors {
    type V = Seq<FieldView>;

    open spec fn view(&self) -> Seq<FieldView> {
        self.fields@.map_values(|f: FieldErrors| f@)
    }
}

/// The failure of one rule: nothing where it holds.
pub open spec fn rule(holds: bool, code: Seq<char>, message: Option<Seq<char>>) -> Seq<RuleView> {
    if holds {
        Seq::empty()
    } else {
        seq![(code, message, Seq::empty())]
    }
}

/// The failure of one rule without a message, with its written parameters:
/// nothing where it holds.
pub open spec fn bare_rule(holds: bool, code: Seq<char>, params: Seq<char>) -> Seq<RuleView> {
    if holds {
        Seq::empty()
    } else {
        seq![(code, None, params)]
    }
}

/// A field's entry in the report: nothing where no rule failed.
pub open spec fn field_entry(name: Seq<char>, failed: Seq<RuleView>) -> Seq<FieldView> {
    if failed.len() == 0 {
        Seq::empty()
    } else {
        seq![(name, failed)]
    }
}

/// The outcome of checking a body against its rules.
pub open spec fn outcome(report: Seq<FieldView>) -> Result<(), Seq<FieldView>> {
    if report.len() == 0 {
        Ok(())
    } else {
        Err(report)
    }
}

/// The plain-text outcome of a check.
pub open spec fn outcome_view(r: Result<(), ValidationErrors>) -> Result<(), Seq<FieldView>> {
    match r {
        Ok(()) => Ok(()),
        Err(e) => Err(e@),
    }
}

/// Records the failure of a rule that does not hold.
pub fn check_rule(failed: &mut Vec<FieldError>, holds: bool, code: &str, message: Option<&str>)
    ensures
        final(failed)@.map_values(|e: FieldError| e@) == old(failed)@.map_values(
            |e: FieldError| e@,
        ) + rule(
            holds,
            code@,
            match message {
                Some(m) => Some(m@),
                None => None,
            },
        ),
{
    if !holds {
        let m = match message {
            Some(m) => Some(String::from_str(m)),
            None => None,
        };
        let e = FieldError { code: String::from_str(code), message: m, params: String::new() };
        let ghost before = failed@;
        failed.push(e);
        assert(failed@.map_values(|e: FieldError| e@) =~= before.map_values(|e: FieldError| e@)
            + seq![e@]);
    } else {
        assert(failed@.map_values(|e: FieldError| e@) =~= failed@.map_values(|e: FieldError| e@)
            + Seq::<RuleView>::empty());
    }
}

/// Records the failure of a rule without a message, with its written
/// parameters, where it does not hold.
pub fn check_bare_rule(failed: &mut Vec<FieldError>, holds: bool, code: &str, params: &str)
    ensures
        final(failed)@.map_values(|e: FieldError| e@) == old(failed)@.map_values(
            |e: FieldError| e@,
        ) + bare_rule(holds, code@, params@),
{
    if !holds {
        let e = FieldError { code: String::from_str(code), message: None, params: String::from_str(params) };
        let ghost before = failed@;
        failed.push(e);
        assert(failed@.map_values(|e: FieldError| e@) =~= before.map_values(|e: FieldError| e@)
            + seq![e@]);
    } else {
        assert(failed@.map_values(|e: FieldError| e@) =~= failed@.map_values(|e: FieldError| e@)
            + Seq::<RuleView>::empty());
    }
}

/// Adds a field's failures to the report, where there are any.
pub fn add_field(report: &mut Vec<FieldErrors>, name: &str, failed: Vec<FieldError>)
    ensures
        final(report)@.map_values(|f: FieldErrors| f@) == old(report)@.map_values(
            |f: FieldErrors| f@,
        ) + field_entry(name@, failed@.map_values(|e: FieldError| e@)),
{
    if failed.len() > 0 {
        let f = FieldErrors { field: String::from_str(name), errors: failed };
        let ghost before = report@;
        report.push(f);
        assert(report@.map_values(|f: FieldErrors| f@) =~= before.map_values(|f: FieldErrors| f@)
            + seq![f@]);
    } else {
        assert(failed@.map_values(|e: FieldError| e@).len() == 0);
        assert(report@.map_values(|f: FieldErrors| f@) =~= report@.map_values(|f: FieldErrors| f@)
            + Seq::<FieldView>::empty());
    }
}

/// The outcome of a finished report: success where it is empty.
pub fn finish(report: Vec<FieldErrors>) -> (res: Result<(), ValidationErrors>)
    ensures
        outcome_view(res) == outcome(report@.map_values(|f: FieldErrors| f@)),
{
    if report.len() == 0 {
        Ok(())
    } else {
        Err(ValidationErrors { fields: report })
    }
}

/// The text of one failed rule: its message, or, where it has none, the code
/// and the written parameters in brackets.
pub open spec fn rule_text(r: RuleView) -> Seq<char> {
    match r.1 {
        Some(m) => m,
        None => "Validation error: "@ + r.0 + " ["@ + r.2 + "]"@,
    }
}

/// The failed rules of a field joined by ", ".
pub open spec fn rules_text(rs: Seq<RuleView>) -> Seq<char>
    decreases rs.len(),
{
    if rs.len() == 0 {
        Seq::empty()
    } else if rs.len() == 1 {
        rule_text(rs[0])
    } else {
        rules_text(rs.drop_last()) + ", "@ + rule_text(rs.last())
    }
}

/// One line per field: "name: rule, rule", lines joined by a line break.
pub open spec fn report_text(fs: Seq<FieldView>) -> Seq<char>
    decreases fs.len(),
{
    if fs.len() == 0 {
        Seq::empty()
    } else if fs.len() == 1 {
        fs[0].0 + ": "@ + rules_text(fs[0].1)
    } else {
        report_text(fs.drop_last()) + "\n"@ + fs.last().0 + ": "@ + rules_text(fs.last().1)
    }
}

impl FieldError {
    /// The text of this failure: its message, or "Validation error: ", the code,
    /// and the parameters in brackets.
    pub fn text(&self) -> (res: String)
        ensures
            res@ == rule_text(self@),
    {
        match &self.message {
            Some(m) => m.clone(),
            None => {
                let mut s = concat_str("Validation error: ", self.code.as_str());
                s.append(" [");
                s.append(self.params.as_str());
                s.append("]");
                s
            },
        }
    }
}

impl FieldErrors {
    /// "name: rule, rule" for this field.
    pub fn text(&self) -> (res: String)
        ensures
            res@ == self@.0 + ": "@ + rules_text(self@.1),
    {
        let mut s = concat_str(self.field.as_str(), ": ");
        let ghost head = s@;
        let n = self.errors.len();
        let ghost rs = self@.1;
        let mut i: usize = 0;
        while i < n
            invariant
                n == self.errors@.len(),
                rs == self.errors@.map_values(|e: FieldError| e@),
                head == self.field@ + ": "@,
                i <= n,
                s@ == head + rules_text(rs.take(i as int)),
            decreases n - i,
        {
            let t = self.errors[i].text();
            assert(rs.take(i + 1).drop_last() =~= rs.take(i as int));
            assert(rs.take(i + 1).last() == rs[i as int]);
            if i > 0 {
                s.append(", ");
            }
            s.append(t.as_str());
            proof {
                if i == 0 {
                    assert(rs.take(0) =~= Seq::<RuleView>::empty());
                    assert(s@ =~= head + rules_text(rs.take(1)));
                } else {
                    assert(s@ =~= head + rules_text(rs.take(i + 1)));
                }
            }
            i = i + 1;
        }
        assert(rs.take(n as int) =~= rs);
        s
    }
}

impl ValidationErrors {
    /// The report as text: one line "field: rule, rule" per failed field.
    pub fn to_message(&self) -> (res: String)
        ensures
            res@ == report_text(self@),
    {
        let mut s = String::new();
        let n = self.fields.len();
        let ghost fs = self@;
        let mut i: usize = 0;
        while i < n
            invariant
                n == self.fields@.len(),
                fs == self.fields@.map_values(|f: FieldErrors| f@),
                i <= n,
                s@ == report_text(fs.take(i as int)),
            decreases n - i,
        {
            let t = self.fields[i].text();
            assert(fs.take(i + 1).drop_last() =~= fs.take(i as int));
            assert(fs.take(i + 1).last() == fs[i as int]);
            if i > 0 {
                s.append("\n");
            }
            s.append(t.as_str());
            proof {
                if i == 0 {
                    assert(fs.take(0) =~= Seq::<FieldView>::empty());
                    assert(s@ =~= report_text(fs.take(1)));
                } else {
                    assert(s@ =~= report_text(fs.take(i + 1)));
                }
            }
            i = i + 1;
        }
        assert(fs.take(n as int) =~= fs);
        s
    }
}

} // verus!
