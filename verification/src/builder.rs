//! Batch insert builder: accumulates rows of one entity type and renders
//! one multi-row INSERT statement per batch, optionally with an upsert
//! clause (the reorg-overwrite mechanism for transactions).

use vstd::prelude::*;

use crate::codec::Sequelizable;

verus! {

/// The INSERT statement header for an entity type:
/// `INSERT INTO <table> (<columns>) VALUES` and a newline.
pub open spec fn header_spec<T: Sequelizable>() -> Seq<char> {
    "INSERT INTO "@ + T::spec_table() + " ("@ + T::spec_fields() + ") VALUES\n"@
}

/// The rendered rows, each parenthesized, separated by `,\n`, with no
/// trailing separator.
pub open spec fn rows_spec<T: Sequelizable>(items: Seq<T>) -> Seq<char>
    decreases items.len(),
{
    if items.len() == 0 {
        Seq::empty()
    } else if items.len() == 1 {
        "("@ + items[0].spec_values() + ")"@
    } else {
        rows_spec(items.drop_last()) + ",\n("@ + items.last().spec_values() + ")"@
    }
}

/// Accumulates rows of one entity type for one batch.
pub struct SqlInsert<T> {
    pub sql: String,
    pub items: Vec<T>,
}

impl<T: Sequelizable> SqlInsert<T> {
    /// The statement header accumulated so far.
    pub open spec fn header(&self) -> Seq<char> {
        self.sql@
    }

    /// The rows added so far, in insertion order.
    pub open spec fn rows(&self) -> Seq<T> {
        self.items@
    }

    /// The full statement this builder renders when at least one row was
    /// added.
    pub open spec fn spec_statement(&self) -> Seq<char> {
        self.header() + rows_spec(self.rows())
    }

    /// A fresh builder with no header and no rows. The size hint bounds
    /// neither rows nor rendering; it only sizes the initial allocation.
    pub fn new(size: usize) -> (r: Self)
        ensures
            r.header() == Seq::<char>::empty(),
            r.rows() == Seq::<T>::empty(),
    {
        SqlInsert { sql: String::new(), items: Vec::with_capacity(size) }
    }

    /// Records the destination table name and ordered column list.
    pub fn start(&mut self)
        ensures
            final(self).header() == old(self).header() + header_spec::<T>(),
            final(self).rows() == old(self).rows(),
    {
        self.sql.append("INSERT INTO ");
        self.sql.append(T::table_name());
        self.sql.append(" (");
        self.sql.append(T::insert_fields());
        self.sql.append(") VALUES\n");
        proof {
            assert(self.sql@ =~= old(self).sql@ + header_spec::<T>());
        }
    }

    /// Appends one row to the pending set.
    pub fn insert(&mut self, value: T)
        ensures
            final(self).header() == old(self).header(),
            final(self).rows() == old(self).rows().push(value),
    {
        self.items.push(value);
    }

    /// Appends a run of rows to the pending set, in order.
    pub fn insert_all(&mut self, values: Vec<T>)
        ensures
            final(self).header() == old(self).header(),
            final(self).rows() == old(self).rows() + values@,
    {
        let mut values = values;
        let ghost all = values@;
        proof {
            assert(self.items@ =~= old(self).items@ + all.take(0));
            assert(all.skip(0) =~= all);
        }
        while values.len() > 0
            invariant
                values@.len() <= all.len(),
                values@ == all.skip(all.len() - values@.len()),
                self.items@ == old(self).items@ + all.take(all.len() - values@.len()),
                self.sql == old(self).sql,
            decreases values@.len(),
        {
            let ghost done_before = all.len() - values@.len();
            proof {
                assert(0 <= done_before < all.len());
                assert(all.skip(done_before)[0] == all[done_before]);
            }
            let v = values.remove(0);
            self.items.push(v);
            proof {
                assert(values@ =~= all.skip(done_before + 1));
                assert(all.take(done_before + 1) =~= all.take(done_before).push(all[done_before]));
                assert(self.items@ =~= old(self).items@ + all.take(done_before + 1));
            }
        }
        proof {
            assert(all.take(all.len() as int) =~= all);
        }
    }

    /// How many rows were added.
    pub fn count(&self) -> (r: usize)
        ensures
            r == self.rows().len(),
    {
        self.items.len()
    }

    /// Renders the statement: `None` if no rows were added, otherwise the
    /// header followed by every added row, comma-and-newline separated,
    /// with no trailing separator.
    pub fn get_sql(&self) -> (r: Option<String>)
        ensures
            match r {
                Option::None => self.rows().len() == 0,
                Option::Some(s) => self.rows().len() > 0 && s@ == self.spec_statement(),
            },
    {
        if self.items.len() == 0 {
            return Option::None;
        }
        let mut s = self.sql.clone();
        let mut i: usize = 0;
        while i < self.items.len()
            invariant
                i <= self.items@.len(),
                s@ =~= self.sql@ + rows_spec(self.items@.take(i as int)),
            decreases self.items@.len() - i,
        {
            if i > 0 {
                s.append(",\n(");
            } else {
                s.append("(");
            }
            s.append(self.items[i].to_insert_values().as_str());
            s.append(")");
            proof {
                let pre = self.items@.take(i as int);
                let post = self.items@.take(i as int + 1);
                assert(post.drop_last() =~= pre);
                assert(post.last() == self.items@[i as int]);
                assert(s@ =~= self.sql@ + rows_spec(post));
            }
            i += 1;
        }
        proof {
            assert(self.items@.take(self.items@.len() as int) =~= self.items@);
        }
        Option::Some(s)
    }

    /// Renders the statement with an extra clause appended after one
    /// space; `None` if no rows were added.
    pub fn get_sql_with(&self, extra: &str) -> (r: Option<String>)
        ensures
            match r {
                Option::None => self.rows().len() == 0,
                Option::Some(s) => self.rows().len() > 0 && s@ == self.spec_statement() + " "@
                    + extra@,
            },
    {
        match self.get_sql() {
            Option::None => Option::None,
            Option::Some(mut s) => {
                s.append(" ");
                s.append(extra);
                Option::Some(s)
            },
        }
    }
}

/// The upsert clause for the transactions statement: on a hash conflict
/// every mutable column is overwritten with the incoming value, so a
/// reorg-affected transaction is reconciled instead of duplicated.
pub open spec fn upsert_clause_spec() -> Seq<char> {
    "ON CONFLICT (hash) DO UPDATE SET nonce = excluded.nonce, blockHash = excluded.blockHash, blockNumber = excluded.blockNumber, transactionIndex = excluded.transactionIndex, \"from\" = excluded.from, \"to\" = excluded.to, \"value\" = excluded.value, gas = excluded.gas, gasPrice = excluded.gasPrice"@
}

/// The upsert clause handed to `get_sql_with` for the transactions
/// builder.
pub fn transactions_upsert_clause() -> (r: &'static str)
    ensures
        r@ == upsert_clause_spec(),
{
    "ON CONFLICT (hash) DO UPDATE SET nonce = excluded.nonce, blockHash = excluded.blockHash, blockNumber = excluded.blockNumber, transactionIndex = excluded.transactionIndex, \"from\" = excluded.from, \"to\" = excluded.to, \"value\" = excluded.value, gas = excluded.gas, gasPrice = excluded.gasPrice"
}

} // verus!
