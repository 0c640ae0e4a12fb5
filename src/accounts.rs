use vstd::prelude::*;
use crate::notes::{ConstructionError, Word};

verus! {

#[derive(Clone, Copy, Debug, PartialEq, Eq, Structural)]
pub enum AccountType {
    FungibleFaucet,
    NonFungibleFaucet,
    RegularAccountImmutableCode,
    RegularAccountUpdatableCode,
}

/// A compiled code component: the roots of the procedures it exports, and the
/// account types it may be part of. It carries no storage slots.
#[derive(Clone, Debug)]
pub struct CodeComponent {
    pub procedures: Vec<Word>,
    pub supported_types: Vec<AccountType>,
}

impl CodeComponent {
    /// A component that supports no account type yet.
    pub fn new(procedures: Vec<Word>) -> (r: CodeComponent)
        ensures
            r.procedures@ == procedures@,
            r.supported_types@.len() == 0,
    {
        CodeComponent { procedures, supported_types: Vec::new() }
    }

    /// Adds an account type the component supports.
    pub fn with_supported_type(self, t: AccountType) -> (r: CodeComponent)
        ensures
            r.procedures@ == self.procedures@,
            r.supported_types@ == self.supported_types@.push(t),
    {
        let mut supported_types = self.supported_types;
        supported_types.push(t);
        CodeComponent { procedures: self.procedures, supported_types }
    }

    /// Declares support for every account type.
    pub fn with_supports_all_types(self) -> (r: CodeComponent)
        ensures
            r.procedures@ == self.procedures@,
            forall|t: AccountType| #[trigger] supports(r, t),
    {
        let supported_types = vec![
            AccountType::FungibleFaucet,
            AccountType::NonFungibleFaucet,
            AccountType::RegularAccountImmutableCode,
            AccountType::RegularAccountUpdatableCode,
        ];
        let r = CodeComponent { procedures: self.procedures, supported_types };
        assert forall|t: AccountType| #[trigger] supports(r, t) by {
            match t {
                AccountType::FungibleFaucet => assert(r.supported_types@[0] == t),
                AccountType::NonFungibleFaucet => assert(r.supported_types@[1] == t),
                AccountType::RegularAccountImmutableCode => assert(r.supported_types@[2] == t),
                AccountType::RegularAccountUpdatableCode => assert(r.supported_types@[3] == t),
            }
        }
        r
    }

    pub fn supports_type(&self, t: AccountType) -> (r: bool)
        ensures
            r == supports(*self, t),
    {
        let mut i: usize = 0;
        while i < self.supported_types.len()
            invariant
                i <= self.supported_types@.len(),
                forall|k: int| 0 <= k < i ==> self.supported_types@[k] != t,
            decreases self.supported_types.len() - i,
        {
            if self.supported_types[i] == t {
                return true;
            }
            i = i + 1;
        }
        false
    }
}

pub open spec fn supports(c: CodeComponent, t: AccountType) -> bool {
    c.supported_types@.contains(t)
}

/// Every component supports the account type.
pub open spec fn all_support(cs: Seq<CodeComponent>, t: AccountType) -> bool {
    forall|i: int| 0 <= i < cs.len() ==> supports(#[trigger] cs[i], t)
}

/// An account's code: the procedure table of all its components, and its type.
#[derive(Clone, Debug)]
pub struct AccountDefinition {
    pub procedures: Vec<Word>,
    pub account_type: AccountType,
}

/// The procedures of the components, in order.
pub open spec fn all_procedures(cs: Seq<CodeComponent>) -> Seq<Word>
    decreases cs.len(),
{
    if cs.len() == 0 {
        seq![]
    } else {
        all_procedures(cs.drop_last()) + cs.last().procedures@
    }
}

/// The most procedures an account's code can export.
pub const MAX_NUM_PROCEDURES: usize = 256;

/// A procedure table an account's code can have: one to `MAX_NUM_PROCEDURES`
/// roots, no two equal.
pub open spec fn procedures_ok(s: Seq<Word>) -> bool {
    distinct(s) && 0 < s.len() <= MAX_NUM_PROCEDURES
}

pub open spec fn distinct(s: Seq<Word>) -> bool {
    forall|i: int, j: int| 0 <= i < j < s.len() ==> s[i] != s[j]
}

impl AccountDefinition {
    pub fn num_procedures(&self) -> (r: usize)
        ensures
            r == self.procedures@.len(),
    {
        self.procedures.len()
    }
}

proof fn lemma_prefix_procedures(cs: Seq<CodeComponent>, n: int)
    requires
        0 <= n <= cs.len(),
    ensures
        all_procedures(cs.subrange(0, n)).len() <= all_procedures(cs).len(),
        forall|i: int|
            0 <= i < all_procedures(cs.subrange(0, n)).len() ==> #[trigger] all_procedures(
                cs.subrange(0, n),
            )[i] == all_procedures(cs)[i],
    decreases cs.len() - n,
{
    if n == cs.len() {
        assert(cs.subrange(0, n) =~= cs);
    } else {
        lemma_prefix_procedures(cs, n + 1);
        let longer = cs.subrange(0, n + 1);
        assert(longer.drop_last() =~= cs.subrange(0, n));
        assert(all_procedures(longer) == all_procedures(cs.subrange(0, n)) + longer.last().procedures@);
        assert forall|i: int| 0 <= i < all_procedures(cs.subrange(0, n)).len() implies #[trigger] all_procedures(
            cs.subrange(0, n),
        )[i] == all_procedures(cs)[i] by {
            assert(all_procedures(longer)[i] == all_procedures(cs.subrange(0, n))[i]);
        }
    }
}

/// Joins code components into an account's code. Every component must support
/// the account type; the first that does not is reported. Component `k` conflicts when
/// it exports a root already exported by itself or an earlier component; the
/// joined table must also hold one to `MAX_NUM_PROCEDURES` procedures.
pub fn compile_account(components: Vec<CodeComponent>, account_type: AccountType) -> (r: Result<
    AccountDefinition,
    ConstructionError,
>)
    ensures
        !all_support(components@, account_type) ==> (r matches Err(
            ConstructionError::UnsupportedAccountType { component: k },
        ) && k < components@.len() && !supports(components@[k as int], account_type) && forall|
            j: int,
        | 0 <= j < k ==> supports(#[trigger] components@[j], account_type)),
        all_support(components@, account_type) && procedures_ok(all_procedures(components@)) ==> (
        r matches Ok(d) && d.procedures@ == all_procedures(components@) && d.account_type
            == account_type),
        all_support(components@, account_type) && !distinct(all_procedures(components@)) ==> (r matches Err(
            ConstructionError::ProcedureConflict { component: k },
        ) && k < components@.len() && distinct(all_procedures(components@.subrange(0, k as int)))
            && !distinct(all_procedures(components@.subrange(0, k + 1)))),
        all_support(components@, account_type) && distinct(all_procedures(components@))
            && all_procedures(components@).len() == 0 ==> r
            == Err::<AccountDefinition, ConstructionError>(ConstructionError::NoProcedures),
        all_support(components@, account_type) && distinct(all_procedures(components@))
            && all_procedures(components@).len() > MAX_NUM_PROCEDURES ==> r == Err::<AccountDefinition, ConstructionError>(
            ConstructionError::TooManyProcedures,
        ),
{
    let mut c: usize = 0;
    while c < components.len()
        invariant
            c <= components@.len(),
            forall|j: int| 0 <= j < c ==> supports(#[trigger] components@[j], account_type),
        decreases components.len() - c,
    {
        if !components[c].supports_type(account_type) {
            return Err(ConstructionError::UnsupportedAccountType { component: c });
        }
        c = c + 1;
    }
    let mut acc: Vec<Word> = Vec::new();
    let mut k: usize = 0;
    while k < components.len()
        invariant
            k <= components@.len(),
            acc@ == all_procedures(components@.subrange(0, k as int)),
            all_support(components@, account_type),
            distinct(acc@),
        decreases components.len() - k,
    {
        let ghost base = acc@;
        let procs = &components[k].procedures;
        assert(components@.subrange(0, k + 1).drop_last() =~= components@.subrange(0, k as int));
        let mut j: usize = 0;
        while j < procs.len()
            invariant
                k < components@.len(),
                procs@ == components@[k as int].procedures@,
                all_support(components@, account_type),
                j <= procs@.len(),
                acc@ == base + procs@.subrange(0, j as int),
                base == all_procedures(components@.subrange(0, k as int)),
                distinct(acc@),
            decreases procs.len() - j,
        {
            let q = procs[j];
            let mut i: usize = 0;
            while i < acc.len()
                invariant
                    k < components@.len(),
                    j < procs@.len(),
                    q == procs@[j as int],
                    all_support(components@, account_type),
                    procs@ == components@[k as int].procedures@,
                    acc@ == base + procs@.subrange(0, j as int),
                    base == all_procedures(components@.subrange(0, k as int)),
                    distinct(acc@),
                    i <= acc@.len(),
                    forall|m: int| 0 <= m < i ==> acc@[m] != q,
                decreases acc.len() - i,
            {
                if acc[i] == q {
                    proof {
                        let post = components@.subrange(0, k + 1);
                        let whole = all_procedures(post);
                        assert(post.drop_last() =~= components@.subrange(0, k as int));
                        assert(post.last() == components@[k as int]);
                        assert(whole =~= base + procs@);
                        assert(acc@[i as int] == base.add(procs@.subrange(0, j as int))[i as int]);
                        assert(whole[i as int] == acc@[i as int]);
                        assert(whole[base.len() + j] == q);
                        assert(whole[i as int] == whole[base.len() + j]);
                        assert(!distinct(whole));
                        assert forall|a: int, b: int| 0 <= a < b < base.len() implies base[a]
                            != base[b] by {
                            assert(base[a] == acc@[a]);
                            assert(base[b] == acc@[b]);
                        }
                        lemma_prefix_procedures(components@, k + 1);
                        assert(all_procedures(components@)[i as int] == all_procedures(components@)[base.len() + j]);
                        assert(!distinct(all_procedures(components@)));
                    }
                    return Err(ConstructionError::ProcedureConflict { component: k });
                }
                i = i + 1;
            }
            acc.push(q);
            j = j + 1;
            assert(acc@ =~= base + procs@.subrange(0, j as int));
        }
        assert(procs@.subrange(0, procs@.len() as int) =~= procs@);
        k = k + 1;
    }
    assert(components@.subrange(0, components@.len() as int) =~= components@);
    if acc.len() == 0 {
        return Err(ConstructionError::NoProcedures);
    }
    if acc.len() > MAX_NUM_PROCEDURES {
        return Err(ConstructionError::TooManyProcedures);
    }
    Ok(AccountDefinition { procedures: acc, account_type })
}

} // verus!
