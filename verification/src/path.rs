//! The path-data mini-language: a fluent builder for path commands,
//! kept apart from the element builders.

use vstd::prelude::*;

verus! {

/// The text of a path-command flag argument.
pub open spec fn spec_flag_text(b: bool) -> Seq<char> {
    if b {
        "1"@
    } else {
        "0"@
    }
}

/// Renders a path-command flag argument.
fn flag_str(b: bool) -> (r: &'static str)
    ensures
        r@ == spec_flag_text(b),
{
    if b {
        "1"
    } else {
        "0"
    }
}

/// Path commands joined by single spaces.
pub open spec fn spec_points_text(points: Seq<String>) -> Seq<char>
    decreases points.len(),
{
    if points.len() == 0 {
        Seq::empty()
    } else if points.len() == 1 {
        points[0]@
    } else {
        spec_points_text(points.drop_last()) + " "@ + points.last()@
    }
}

/// Appending one more command appends a space and its text.
pub proof fn lemma_points_text_step(points: Seq<String>, j: int)
    requires
        0 <= j < points.len(),
    ensures
        spec_points_text(points.take(j + 1)) == if j == 0 {
            points[0]@
        } else {
            spec_points_text(points.take(j)) + " "@ + points[j]@
        },
{
    assert(points.take(j + 1).drop_last() =~= points.take(j));
    assert(points.take(j + 1).last() == points[j]);
    if j == 0 {
        assert(points.take(1).len() == 1);
        assert(points.take(1)[0] == points[0]);
    }
}

/// Commands whose texts agree render alike when joined.
pub proof fn lemma_points_text_congruent(a: Seq<String>, b: Seq<String>)
    requires
        a.len() == b.len(),
        forall|j: int| 0 <= j < a.len() ==> (#[trigger] a[j])@ == b[j]@,
    ensures
        spec_points_text(a) == spec_points_text(b),
    decreases a.len(),
{
    if a.len() > 1 {
        assert forall|j: int| 0 <= j < a.drop_last().len() implies (#[trigger] a.drop_last()[j])@
            == b.drop_last()[j]@ by {
            assert(a.drop_last()[j] == a[j]);
            assert(b.drop_last()[j] == b[j]);
        }
        lemma_points_text_congruent(a.drop_last(), b.drop_last());
        assert(a.last()@ == b.last()@);
    }
}

/// A sequence of path commands, each stored as its rendered text.
#[derive(Debug)]
pub struct Path {
    pub points: Vec<String>,
}

/// The rendered text of a path-data value.
pub open spec fn spec_render_path(p: Path) -> Seq<char> {
    spec_points_text(p.points@)
}

impl Clone for Path {
    /// The clone renders to the same text.
    fn clone(&self) -> (r: Self)
        ensures
            spec_render_path(r) == spec_render_path(*self),
    {
        let mut points: Vec<String> = Vec::new();
        let n = self.points.len();
        let mut j: usize = 0;
        #[verifier::loop_isolation(false)]
        while j < n
            invariant
                j <= n,
                points@.len() == j,
                forall|k: int| 0 <= k < j ==> (#[trigger] points@[k])@ == self.points@[k]@,
            decreases n - j,
        {
            points.push(self.points[j].clone());
            j = j + 1;
        }
        proof {
            lemma_points_text_congruent(points@, self.points@);
        }
        Path { points }
    }
}

#[allow(non_snake_case)]
impl Path {
    /// An empty command sequence.
    pub fn new() -> (r: Self)
        ensures
            r.points@ == Seq::<String>::empty(),
    {
        Path { points: Vec::new() }
    }

    /// Appends an absolute move command.
    pub fn M(self, x: String, y: String) -> (r: Self)
        ensures
            r.points@.len() == self.points@.len() + 1,
            r.points@.drop_last() == self.points@,
            r.points@.last()@ == "M"@ + " "@ + x@ + " "@ + y@,
    {
        let mut cmd = String::new();
        cmd.append("M");
        cmd.append(" ");
        cmd.append(x.as_str());
        cmd.append(" ");
        cmd.append(y.as_str());
        proof {
            assert(cmd@ =~= "M"@ + " "@ + x@ + " "@ + y@);
        }
        let mut s = self;
        s.points.push(cmd);
        proof {
            assert(s.points@.drop_last() =~= self.points@);
        }
        s
    }

    /// Appends an relative move command.
    pub fn m(self, dx: String, dy: String) -> (r: Self)
        ensures
            r.points@.len() == self.points@.len() + 1,
            r.points@.drop_last() == self.points@,
            r.points@.last()@ == "m"@ + " "@ + dx@ + " "@ + dy@,
    {
        let mut cmd = String::new();
        cmd.append("m");
        cmd.append(" ");
        cmd.append(dx.as_str());
        cmd.append(" ");
        cmd.append(dy.as_str());
        proof {
            assert(cmd@ =~= "m"@ + " "@ + dx@ + " "@ + dy@);
        }
        let mut s = self;
        s.points.push(cmd);
        proof {
            assert(s.points@.drop_last() =~= self.points@);
        }
        s
    }

    /// Appends an absolute line command.
    pub fn L(self, x: String, y: String) -> (r: Self)
        ensures
            r.points@.len() == self.points@.len() + 1,
            r.points@.drop_last() == self.points@,
            r.points@.last()@ == "L"@ + " "@ + x@ + " "@ + y@,
    {
        let mut cmd = String::new();
        cmd.append("L");
        cmd.append(" ");
        cmd.append(x.as_str());
        cmd.append(" ");
        cmd.append(y.as_str());
        proof {
            assert(cmd@ =~= "L"@ + " "@ + x@ + " "@ + y@);
        }
        let mut s = self;
        s.points.push(cmd);
        proof {
            assert(s.points@.drop_last() =~= self.points@);
        }
        s
    }

    /// Appends an relative line command.
    pub fn l(self, dx: String, dy: String) -> (r: Self)
        ensures
            r.points@.len() == self.points@.len() + 1,
            r.points@.drop_last() == self.points@,
            r.points@.last()@ == "l"@ + " "@ + dx@ + " "@ + dy@,
    {
        let mut cmd = String::new();
        cmd.append("l");
        cmd.append(" ");
        cmd.append(dx.as_str());
        cmd.append(" ");
        cmd.append(dy.as_str());
        proof {
            assert(cmd@ =~= "l"@ + " "@ + dx@ + " "@ + dy@);
        }
        let mut s = self;
        s.points.push(cmd);
        proof {
            assert(s.points@.drop_last() =~= self.points@);
        }
        s
    }

    /// Appends an absolute horizontal line command.
    pub fn H(self, x: String) -> (r: Self)
        ensures
            r.points@.len() == self.points@.len() + 1,
            r.points@.drop_last() == self.points@,
            r.points@.last()@ == "H"@ + " "@ + x@,
    {
        let mut cmd = String::new();
        cmd.append("H");
        cmd.append(" ");
        cmd.append(x.as_str());
        proof {
            assert(cmd@ =~= "H"@ + " "@ + x@);
        }
        let mut s = self;
        s.points.push(cmd);
        proof {
            assert(s.points@.drop_last() =~= self.points@);
        }
        s
    }

    /// Appends an relative horizontal line command.
    pub fn h(self, dx: String) -> (r: Self)
        ensures
            r.points@.len() == self.points@.len() + 1,
            r.points@.drop_last() == self.points@,
            r.points@.last()@ == "h"@ + " "@ + dx@,
    {
        let mut cmd = String::new();
        cmd.append("h");
        cmd.append(" ");
        cmd.append(dx.as_str());
        proof {
            assert(cmd@ =~= "h"@ + " "@ + dx@);
        }
        let mut s = self;
        s.points.push(cmd);
        proof {
            assert(s.points@.drop_last() =~= self.points@);
        }
        s
    }

    /// Appends an absolute vertical line command.
    pub fn V(self, y: String) -> (r: Self)
        ensures
            r.points@.len() == self.points@.len() + 1,
            r.points@.drop_last() == self.points@,
            r.points@.last()@ == "V"@ + " "@ + y@,
    {
        let mut cmd = String::new();
        cmd.append("V");
        cmd.append(" ");
        cmd.append(y.as_str());
        proof {
            assert(cmd@ =~= "V"@ + " "@ + y@);
        }
        let mut s = self;
        s.points.push(cmd);
        proof {
            assert(s.points@.drop_last() =~= self.points@);
        }
        s
    }

    /// Appends an relative vertical line command.
    pub fn v(self, dy: String) -> (r: Self)
        ensures
            r.points@.len() == self.points@.len() + 1,
            r.points@.drop_last() == self.points@,
            r.points@.last()@ == "v"@ + " "@ + dy@,
    {
        let mut cmd = String::new();
        cmd.append("v");
        cmd.append(" ");
        cmd.append(dy.as_str());
        proof {
            assert(cmd@ =~= "v"@ + " "@ + dy@);
        }
        let mut s = self;
        s.points.push(cmd);
        proof {
            assert(s.points@.drop_last() =~= self.points@);
        }
        s
    }

    /// Appends an absolute cubic curve command.
    pub fn C(self, x1: String, y1: String, x2: String, y2: String, x: String, y: String) -> (r: Self)
        ensures
            r.points@.len() == self.points@.len() + 1,
            r.points@.drop_last() == self.points@,
            r.points@.last()@ == "C"@ + " "@ + x1@ + " "@ + y1@ + ", "@ + x2@ + " "@ + y2@ + ", "@ + x@ + " "@ + y@,
    {
        let mut cmd = String::new();
        cmd.append("C");
        cmd.append(" ");
        cmd.append(x1.as_str());
        cmd.append(" ");
        cmd.append(y1.as_str());
        cmd.append(", ");
        cmd.append(x2.as_str());
        cmd.append(" ");
        cmd.append(y2.as_str());
        cmd.append(", ");
        cmd.append(x.as_str());
        cmd.append(" ");
        cmd.append(y.as_str());
        proof {
            assert(cmd@ =~= "C"@ + " "@ + x1@ + " "@ + y1@ + ", "@ + x2@ + " "@ + y2@ + ", "@ + x@ + " "@ + y@);
        }
        let mut s = self;
        s.points.push(cmd);
        proof {
            assert(s.points@.drop_last() =~= self.points@);
        }
        s
    }

    /// Appends an relative cubic curve command.
    pub fn c(self, dx1: String, dy1: String, dx2: String, dy2: String, dx: String, dy: String) -> (r: Self)
        ensures
            r.points@.len() == self.points@.len() + 1,
            r.points@.drop_last() == self.points@,
            r.points@.last()@ == "c"@ + " "@ + dx1@ + " "@ + dy1@ + ", "@ + dx2@ + " "@ + dy2@ + ", "@ + dx@ + " "@ + dy@,
    {
        let mut cmd = String::new();
        cmd.append("c");
        cmd.append(" ");
        cmd.append(dx1.as_str());
        cmd.append(" ");
        cmd.append(dy1.as_str());
        cmd.append(", ");
        cmd.append(dx2.as_str());
        cmd.append(" ");
        cmd.append(dy2.as_str());
        cmd.append(", ");
        cmd.append(dx.as_str());
        cmd.append(" ");
        cmd.append(dy.as_str());
        proof {
            assert(cmd@ =~= "c"@ + " "@ + dx1@ + " "@ + dy1@ + ", "@ + dx2@ + " "@ + dy2@ + ", "@ + dx@ + " "@ + dy@);
        }
        let mut s = self;
        s.points.push(cmd);
        proof {
            assert(s.points@.drop_last() =~= self.points@);
        }
        s
    }

    /// Appends an absolute smooth cubic curve command.
    pub fn S(self, x2: String, y2: String, x: String, y: String) -> (r: Self)
        ensures
            r.points@.len() == self.points@.len() + 1,
            r.points@.drop_last() == self.points@,
            r.points@.last()@ == "S"@ + " "@ + x2@ + " "@ + y2@ + ", "@ + x@ + " "@ + y@,
    {
        let mut cmd = String::new();
        cmd.append("S");
        cmd.append(" ");
        cmd.append(x2.as_str());
        cmd.append(" ");
        cmd.append(y2.as_str());
        cmd.append(", ");
        cmd.append(x.as_str());
        cmd.append(" ");
        cmd.append(y.as_str());
        proof {
            assert(cmd@ =~= "S"@ + " "@ + x2@ + " "@ + y2@ + ", "@ + x@ + " "@ + y@);
        }
        let mut s = self;
        s.points.push(cmd);
        proof {
            assert(s.points@.drop_last() =~= self.points@);
        }
        s
    }

    /// Appends an relative smooth cubic curve command.
    pub fn s(self, dx2: String, dy2: String, dx: String, dy: String) -> (r: Self)
        ensures
            r.points@.len() == self.points@.len() + 1,
            r.points@.drop_last() == self.points@,
            r.points@.last()@ == "s"@ + " "@ + dx2@ + " "@ + dy2@ + ", "@ + dx@ + " "@ + dy@,
    {
        let mut cmd = String::new();
        cmd.append("s");
        cmd.append(" ");
        cmd.append(dx2.as_str());
        cmd.append(" ");
        cmd.append(dy2.as_str());
        cmd.append(", ");
        cmd.append(dx.as_str());
        cmd.append(" ");
        cmd.append(dy.as_str());
        proof {
            assert(cmd@ =~= "s"@ + " "@ + dx2@ + " "@ + dy2@ + ", "@ + dx@ + " "@ + dy@);
        }
        let mut s = self;
        s.points.push(cmd);
        proof {
            assert(s.points@.drop_last() =~= self.points@);
        }
        s
    }

    /// Appends an absolute quadratic curve command.
    pub fn Q(self, x1: String, y1: String, x: String, y: String) -> (r: Self)
        ensures
            r.points@.len() == self.points@.len() + 1,
            r.points@.drop_last() == self.points@,
            r.points@.last()@ == "Q"@ + "  "@ + x1@ + " "@ + y1@ + ", "@ + x@ + " "@ + y@,
    {
        let mut cmd = String::new();
        cmd.append("Q");
        cmd.append("  ");
        cmd.append(x1.as_str());
        cmd.append(" ");
        cmd.append(y1.as_str());
        cmd.append(", ");
        cmd.append(x.as_str());
        cmd.append(" ");
        cmd.append(y.as_str());
        proof {
            assert(cmd@ =~= "Q"@ + "  "@ + x1@ + " "@ + y1@ + ", "@ + x@ + " "@ + y@);
        }
        let mut s = self;
        s.points.push(cmd);
        proof {
            assert(s.points@.drop_last() =~= self.points@);
        }
        s
    }

    /// Appends an relative quadratic curve command.
    pub fn q(self, dx1: String, dy1: String, dx: String, dy: String) -> (r: Self)
        ensures
            r.points@.len() == self.points@.len() + 1,
            r.points@.drop_last() == self.points@,
            r.points@.last()@ == "q"@ + "  "@ + dx1@ + " "@ + dy1@ + ", "@ + dx@ + " "@ + dy@,
    {
        let mut cmd = String::new();
        cmd.append("q");
        cmd.append("  ");
        cmd.append(dx1.as_str());
        cmd.append(" ");
        cmd.append(dy1.as_str());
        cmd.append(", ");
        cmd.append(dx.as_str());
        cmd.append(" ");
        cmd.append(dy.as_str());
        proof {
            assert(cmd@ =~= "q"@ + "  "@ + dx1@ + " "@ + dy1@ + ", "@ + dx@ + " "@ + dy@);
        }
        let mut s = self;
        s.points.push(cmd);
        proof {
            assert(s.points@.drop_last() =~= self.points@);
        }
        s
    }

    /// Appends an absolute smooth quadratic curve command.
    pub fn T(self, x: String, y: String) -> (r: Self)
        ensures
            r.points@.len() == self.points@.len() + 1,
            r.points@.drop_last() == self.points@,
            r.points@.last()@ == "T"@ + " "@ + x@ + " "@ + y@,
    {
        let mut cmd = String::new();
        cmd.append("T");
        cmd.append(" ");
        cmd.append(x.as_str());
        cmd.append(" ");
        cmd.append(y.as_str());
        proof {
            assert(cmd@ =~= "T"@ + " "@ + x@ + " "@ + y@);
        }
        let mut s = self;
        s.points.push(cmd);
        proof {
            assert(s.points@.drop_last() =~= self.points@);
        }
        s
    }

    /// Appends an relative smooth quadratic curve command.
    pub fn t(self, dx: String, dy: String) -> (r: Self)
        ensures
            r.points@.len() == self.points@.len() + 1,
            r.points@.drop_last() == self.points@,
            r.points@.last()@ == "t"@ + " "@ + dx@ + " "@ + dy@,
    {
        let mut cmd = String::new();
        cmd.append("t");
        cmd.append(" ");
        cmd.append(dx.as_str());
        cmd.append(" ");
        cmd.append(dy.as_str());
        proof {
            assert(cmd@ =~= "t"@ + " "@ + dx@ + " "@ + dy@);
        }
        let mut s = self;
        s.points.push(cmd);
        proof {
            assert(s.points@.drop_last() =~= self.points@);
        }
        s
    }

    /// Appends the absolute close-path command.
    pub fn Z(self) -> (r: Self)
        ensures
            r.points@.len() == self.points@.len() + 1,
            r.points@.drop_last() == self.points@,
            r.points@.last()@ == "Z"@,
    {
        let cmd = "Z".to_owned();
        let mut s = self;
        s.points.push(cmd);
        proof {
            assert(s.points@.drop_last() =~= self.points@);
        }
        s
    }

    /// Appends the relative close-path command.
    pub fn z(self) -> (r: Self)
        ensures
            r.points@.len() == self.points@.len() + 1,
            r.points@.drop_last() == self.points@,
            r.points@.last()@ == "z"@,
    {
        let cmd = "z".to_owned();
        let mut s = self;
        s.points.push(cmd);
        proof {
            assert(s.points@.drop_last() =~= self.points@);
        }
        s
    }

    /// Appends an absolute arc command; the flags render as `0` or `1`.
    pub fn A(
        self,
        rx: String,
        ry: String,
        x_axis_rotation: String,
        large_arc_flag: bool,
        sweep_flag: bool,
        x: String,
        y: String,
    ) -> (r: Self)
        ensures
            r.points@.len() == self.points@.len() + 1,
            r.points@.drop_last() == self.points@,
            r.points@.last()@ == "A"@ + " "@ + rx@ + " "@ + ry@ + " "@ + x_axis_rotation@ + " "@ + spec_flag_text(large_arc_flag) + " "@ + spec_flag_text(sweep_flag) + " "@ + x@ + " "@ + y@,
    {
        let mut cmd = String::new();
        cmd.append("A");
        cmd.append(" ");
        cmd.append(rx.as_str());
        cmd.append(" ");
        cmd.append(ry.as_str());
        cmd.append(" ");
        cmd.append(x_axis_rotation.as_str());
        cmd.append(" ");
        cmd.append(flag_str(large_arc_flag));
        cmd.append(" ");
        cmd.append(flag_str(sweep_flag));
        cmd.append(" ");
        cmd.append(x.as_str());
        cmd.append(" ");
        cmd.append(y.as_str());
        proof {
            assert(cmd@ =~= "A"@ + " "@ + rx@ + " "@ + ry@ + " "@ + x_axis_rotation@ + " "@ + spec_flag_text(large_arc_flag) + " "@ + spec_flag_text(sweep_flag) + " "@ + x@ + " "@ + y@);
        }
        let mut s = self;
        s.points.push(cmd);
        proof {
            assert(s.points@.drop_last() =~= self.points@);
        }
        s
    }

    /// Appends an relative arc command; the flags render as `0` or `1`.
    pub fn a(
        self,
        rx: String,
        ry: String,
        x_axis_rotation: String,
        large_arc_flag: bool,
        sweep_flag: bool,
        dx: String,
        dy: String,
    ) -> (r: Self)
        ensures
            r.points@.len() == self.points@.len() + 1,
            r.points@.drop_last() == self.points@,
            r.points@.last()@ == "a"@ + " "@ + rx@ + " "@ + ry@ + " "@ + x_axis_rotation@ + " "@ + spec_flag_text(large_arc_flag) + " "@ + spec_flag_text(sweep_flag) + " "@ + dx@ + " "@ + dy@,
    {
        let mut cmd = String::new();
        cmd.append("a");
        cmd.append(" ");
        cmd.append(rx.as_str());
        cmd.append(" ");
        cmd.append(ry.as_str());
        cmd.append(" ");
        cmd.append(x_axis_rotation.as_str());
        cmd.append(" ");
        cmd.append(flag_str(large_arc_flag));
        cmd.append(" ");
        cmd.append(flag_str(sweep_flag));
        cmd.append(" ");
        cmd.append(dx.as_str());
        cmd.append(" ");
        cmd.append(dy.as_str());
        proof {
            assert(cmd@ =~= "a"@ + " "@ + rx@ + " "@ + ry@ + " "@ + x_axis_rotation@ + " "@ + spec_flag_text(large_arc_flag) + " "@ + spec_flag_text(sweep_flag) + " "@ + dx@ + " "@ + dy@);
        }
        let mut s = self;
        s.points.push(cmd);
        proof {
            assert(s.points@.drop_last() =~= self.points@);
        }
        s
    }

    /// Renders the command sequence, commands joined by single spaces.
    pub fn render(&self) -> (out: String)
        ensures
            out@ == spec_render_path(*self),
    {
        let mut out = String::new();
        let n = self.points.len();
        let mut j: usize = 0;
        proof {
            assert(self.points@.take(0) =~= Seq::<String>::empty());
            assert(out@ =~= spec_points_text(self.points@.take(0)));
        }
        #[verifier::loop_isolation(false)]
        while j < n
            invariant
                j <= n,
                out@ == spec_points_text(self.points@.take(j as int)),
            decreases n - j,
        {
            if j > 0 {
                out.append(" ");
            }
            out.append(self.points[j].as_str());
            proof {
                lemma_points_text_step(self.points@, j as int);
                if j == 0 {
                    assert(out@ =~= spec_points_text(self.points@.take(j as int + 1)));
                } else {
                    assert(out@ == spec_points_text(self.points@.take(j as int + 1)));
                }
            }
            j = j + 1;
        }
        proof {
            assert(self.points@.take(n as int) =~= self.points@);
        }
        out
    }
}

} // verus!
