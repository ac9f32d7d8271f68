//! The rule table: style records keyed by selector text, in order of first appearance.
use crate::types::{unset_properties, with_declaration, Declaration, StyleProperties};
use vstd::prelude::*;

verus! {

/// A table as a sequence of (selector, record) pairs.
pub type Table = Seq<(Seq<char>, StyleProperties)>;

/// The index of the entry for `sel`, searching from the end; -1 where there is none.
pub open spec fn rule_index(t: Table, sel: Seq<char>) -> int
    decreases t.len(),
{
    if t.len() == 0 {
        -1
    } else if t.last().0 == sel {
        t.len() - 1
    } else {
        rule_index(t.drop_last(), sel)
    }
}

/// The record for `sel`, if the table has one.
pub open spec fn table_lookup(t: Table, sel: Seq<char>) -> Option<StyleProperties> {
    let i = rule_index(t, sel);
    if i >= 0 {
        Some(t[i].1)
    } else {
        None
    }
}

/// The table after a declaration for `sel`: the entry for `sel` gets the declaration,
/// and where there is none a new one is added at the end.
pub open spec fn table_write(t: Table, sel: Seq<char>, d: Declaration) -> Table {
    let i = rule_index(t, sel);
    if i >= 0 {
        t.update(i, (sel, with_declaration(t[i].1, d)))
    } else {
        t.push((sel, with_declaration(unset_properties(), d)))
    }
}

pub proof fn lemma_rule_index(t: Table, sel: Seq<char>)
    ensures
        -1 <= rule_index(t, sel) < t.len(),
        rule_index(t, sel) >= 0 ==> t[rule_index(t, sel)].0 == sel,
        rule_index(t, sel) == -1 ==> forall|i: int| 0 <= i < t.len() ==> t[i].0 != sel,
    decreases t.len(),
{
    if t.len() > 0 && t.last().0 != sel {
        lemma_rule_index(t.drop_last(), sel);
        if rule_index(t, sel) == -1 {
            assert forall|i: int| 0 <= i < t.len() implies t[i].0 != sel by {
                if i < t.len() - 1 {
                    assert(t.drop_last()[i] == t[i]);
                }
            }
        }
    }
}

/// One rule: a selector and the record its declarations built.
#[derive(Clone, Debug)]
pub struct CssRule {
    pub selector: String,
    pub properties: StyleProperties,
}

/// The rules of a style sheet, one entry per selector text.
#[derive(Clone, Debug)]
pub struct CssRules {
    pub rules: Vec<CssRule>,
}

impl View for CssRules {
    type V = Table;

    open spec fn view(&self) -> Table {
        self.rules@.map_values(|r: CssRule| (r.selector@, r.properties))
    }
}

impl CssRules {
    pub fn new() -> (r: CssRules)
        ensures
            r@ == Seq::<(Seq<char>, StyleProperties)>::empty(),
    {
        let r = CssRules { rules: Vec::new() };
        assert(r@ =~= Seq::<(Seq<char>, StyleProperties)>::empty());
        r
    }

    /// The index of the entry for `sel`.
    pub fn find(&self, sel: &String) -> (r: Option<usize>)
        ensures
            match r {
                Some(i) => i as int == rule_index(self@, sel@),
                None => rule_index(self@, sel@) == -1,
            },
    {
        let mut i = self.rules.len();
        assert(self@.take(i as int) =~= self@);
        while i > 0
            invariant
                i <= self.rules.len(),
                rule_index(self@.take(i as int), sel@) == rule_index(self@, sel@),
            decreases i,
        {
            assert(self@.take(i as int).last() == self@[i - 1]);
            if self.rules[i - 1].selector == *sel {
                return Some(i - 1);
            }
            assert(self@.take(i as int).drop_last() =~= self@.take(i - 1));
            i -= 1;
        }
        None
    }

    /// The record for `sel`, if there is one.
    pub fn get(&self, sel: &String) -> (r: Option<&StyleProperties>)
        ensures
            match r {
                Some(p) => table_lookup(self@, sel@) == Some(*p),
                None => table_lookup(self@, sel@) is None,
            },
    {
        match self.find(sel) {
            Some(i) => {
                proof {
                    lemma_rule_index(self@, sel@);
                }
                Some(&self.rules[i].properties)
            },
            None => None,
        }
    }

    /// Records declaration `d` for `sel`.
    pub fn write(&mut self, sel: &String, d: Declaration)
        ensures
            final(self)@ == table_write(old(self)@, sel@, d),
    {
        proof {
            lemma_rule_index(self@, sel@);
        }
        match self.find(sel) {
            Some(i) => {
                self.rules[i].properties.apply(d);
                assert(self@ =~= table_write(old(self)@, sel@, d));
            },
            None => {
                let mut properties = StyleProperties::default();
                properties.apply(d);
                self.rules.push(CssRule { selector: sel.clone(), properties });
                assert(self@ =~= table_write(old(self)@, sel@, d));
            },
        }
    }
}

} // verus!
