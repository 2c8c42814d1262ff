//! A one-line picture of the tree below a widget, for diagnostics.
//!
//! A widget is shown by the name of its type, followed by its debug text in
//! angle brackets if it has one, followed by its children in round brackets
//! if it has any: `Flex(Label<Hello>, Button)`.

use vstd::prelude::*;
use vstd::string::StringExecFns;

use crate::widget_ref::WidgetRef;

verus! {

impl<'w> WidgetRef<'w> {
    /// How the widget itself is shown: the name of its type, and its debug
    /// text in angle brackets where it has one.
    pub open spec fn display_name(self) -> Seq<char> {
        match self.widget.debug_text {
            Some(text) => self.widget.widget_type@ + "<"@ + text@ + ">"@,
            None => self.widget.widget_type@,
        }
    }

    /// How the tree below the widget is shown.
    pub open spec fn spec_debug_string(self) -> Seq<char>
        decreases self.widget_state_children.nodes, self.declared().len() + 1,
    {
        if self.declared().len() == 0 {
            self.display_name()
        } else {
            self.display_name() + "("@ + self.children_debug_string(self.declared().len() as int)
                + ")"@
        }
    }

    /// How the first `count` children are shown: one after the other, with a
    /// comma and a blank between any two.
    pub open spec fn children_debug_string(self, count: int) -> Seq<char>
        decreases self.widget_state_children.nodes, count,
    {
        if count <= 0 || count > self.declared().len() || !self.resolves(
            self.declared()[count - 1],
        ) {
            Seq::empty()
        } else if count == 1 {
            self.child(self.declared()[0]).spec_debug_string()
        } else {
            self.children_debug_string(count - 1) + ", "@ + self.child(
                self.declared()[count - 1],
            ).spec_debug_string()
        }
    }

    /// A one-line picture of the widget and everything below it.
    pub fn debug_string(&self) -> (text: String)
        requires
            self.well_formed(),
        ensures
            text@ == self.spec_debug_string(),
        decreases self.widget_state_children.nodes,
    {
        let mut text = String::from_str(self.widget.short_type_name());
        if let Some(debug_text) = &self.widget.debug_text {
            text.append("<");
            text.append(debug_text.as_str());
            text.append(">");
        }
        assert(text@ == self.display_name());
        proof {
            self.lemma_well_formed_children();
        }
        let children = self.children();
        let n = children.len();
        if n == 0 {
            return text;
        }
        text.append("(");
        let mut i: usize = 0;
        while i < n
            invariant
                self.well_formed(),
                children@ == self.spec_children(),
                n == self.declared().len(),
                0 <= i <= n,
                text@ == self.display_name() + "("@ + self.children_debug_string(i as int),
            decreases n - i,
        {
            let child = children.get(i).unwrap();
            assert(self.resolves(self.declared()[i as int]));
            assert(child == self.child_at(i as int));
            if i > 0 {
                text.append(", ");
            }
            let inner = child.debug_string();
            text.append(inner.as_str());
            assert(text@ == self.display_name() + "("@ + self.children_debug_string(i + 1));
            i += 1;
        }
        text.append(")");
        text
    }
}

} // verus!
