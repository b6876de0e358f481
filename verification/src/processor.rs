//! The orchestrator: decodes the incoming message, authenticates the
//! supplied account list, and plans the fixed sequence of cross-program
//! calls that realizes the mint. The caller performs each planned call in
//! order inside one atomic execution unit.

use vstd::prelude::*;

use crate::address::Address;
use crate::address::rent_sysvar_id;
use crate::address::rent_sysvar_address;
use crate::address::system_program_id;
use crate::address::system_program_address;
use crate::address::token_program_id;
use crate::address::token_program_address;
use crate::errors::GloweError;
use crate::errors::ProgramFault;
use crate::instructions::GloweInstruction;
use crate::instructions::InstructionModel;
use crate::instructions::decode;
use crate::instructions::spec_encode;
use crate::instructions::wf_model;
use crate::pda::derive_mint_account_internal;
use crate::pda::derive_mint_account_seeds;
use crate::pda::derive_token_account_internal;
use crate::pda::derive_token_account_seeds;
use crate::pda::spec_mint_pda;
use crate::pda::spec_mint_seeds;
use crate::pda::spec_token_pda;
use crate::pda::spec_token_seeds;

verus! {

/// The byte size of a mint record in the external token program.
pub const MINT_ACCOUNT_LEN: u64 = 82;

/// The byte size of a token-holding record in the external token program.
pub const TOKEN_ACCOUNT_LEN: u64 = 165;

/// What the orchestrator reads of one supplied ledger account: its address,
/// whether it carries the transaction's signature, and which program owns it.
#[derive(Clone, Copy, Debug)]
pub struct AccountView {
    pub key: Address,
    pub is_signer: bool,
    pub owner: Address,
}

/// One planned cross-program call. A non-empty `signer_seeds` list means the
/// call is authorized by the program's derived-address signature over those
/// seeds; an empty list means the minter's direct signature authorizes it.
#[derive(Debug)]
pub enum PlannedCall {
    /// Ask the system service to allocate `space` bytes at `new_account`,
    /// funded by `funder` with the rent-exempt minimum for that size, owned
    /// by `owning_program`.
    CreateAccount {
        funder: Address,
        new_account: Address,
        space: u64,
        owning_program: Address,
        signer_seeds: Vec<Vec<u8>>,
    },
    /// Ask the token program to initialize `mint` with the given decimal
    /// places and minting authority, and no freeze authority.
    InitializeMint {
        token_program: Address,
        mint: Address,
        authority: Address,
        decimals: u8,
        rent_account: Address,
    },
    /// Ask the token program to initialize `account` as a holding account of
    /// `mint` beneficially owned by `owner`.
    InitializeAccount {
        token_program: Address,
        account: Address,
        mint: Address,
        owner: Address,
        rent_account: Address,
    },
    /// Ask the token program to mint `amount` units of `mint` into
    /// `destination`, authorized by `authority`.
    MintTo {
        token_program: Address,
        mint: Address,
        destination: Address,
        authority: Address,
        amount: u64,
        signer_seeds: Vec<Vec<u8>>,
    },
    /// Ask the token program to permanently clear the minting authority of
    /// `mint`, currently `authority`.
    ClearMintAuthority {
        token_program: Address,
        mint: Address,
        authority: Address,
        signer_seeds: Vec<Vec<u8>>,
    },
}

/// The account this planned call acts on: the account it creates,
/// initializes, or whose supply it changes or locks.
pub open spec fn planned_target(c: PlannedCall) -> Seq<u8> {
    match c {
        PlannedCall::CreateAccount { new_account, .. } => new_account@,
        PlannedCall::InitializeMint { mint, .. } => mint@,
        PlannedCall::InitializeAccount { account, .. } => account@,
        PlannedCall::MintTo { mint, .. } => mint@,
        PlannedCall::ClearMintAuthority { mint, .. } => mint@,
    }
}

/// The request the wire bytes encode, if they encode one.
pub open spec fn spec_wire_model(data: Seq<u8>) -> Option<InstructionModel> {
    if exists|m: InstructionModel| wf_model(m) && data == #[trigger] spec_encode(m) {
        Some(choose|m: InstructionModel| wf_model(m) && data == #[trigger] spec_encode(m))
    } else {
        None
    }
}

/// The fault, if any, that the `Mint` pipeline's validation raises on this
/// account list, in the order the checks run.
pub open spec fn spec_mint_check(
    program_id: Seq<u8>,
    accounts: Seq<AccountView>,
    name: Seq<u8>,
) -> Option<ProgramFault> {
    if accounts.len() < 1 {
        Some(ProgramFault::NotEnoughAccountKeys)
    } else if !accounts[0].is_signer {
        Some(ProgramFault::MissingRequiredSignature)
    } else if accounts.len() < 5 {
        Some(ProgramFault::NotEnoughAccountKeys)
    } else if accounts[4].key@ != token_program_id() {
        Some(ProgramFault::Custom(GloweError::AccountMismatch))
    } else if accounts.len() < 6 {
        Some(ProgramFault::NotEnoughAccountKeys)
    } else if accounts[5].key@ != system_program_id() {
        Some(ProgramFault::Custom(GloweError::AccountMismatch))
    } else if spec_mint_pda(program_id, token_program_id(), accounts[0].key@, name) is None {
        Some(ProgramFault::NoViableAddress)
    } else if spec_mint_pda(program_id, token_program_id(), accounts[0].key@, name).unwrap().0
        != accounts[2].key@ {
        Some(ProgramFault::Custom(GloweError::AccountMismatch))
    } else if spec_token_pda(
        program_id,
        token_program_id(),
        accounts[0].key@,
        name,
        accounts[1].key@,
    ) is None {
        Some(ProgramFault::NoViableAddress)
    } else if spec_token_pda(
        program_id,
        token_program_id(),
        accounts[0].key@,
        name,
        accounts[1].key@,
    ).unwrap().0 != accounts[3].key@ {
        Some(ProgramFault::Custom(GloweError::AccountMismatch))
    } else if accounts.len() < 7 {
        Some(ProgramFault::NotEnoughAccountKeys)
    } else if accounts[6].key@ != rent_sysvar_id() {
        Some(ProgramFault::InvalidArgument)
    } else {
        None
    }
}

/// The fault, if any, that the `Mint2` pipeline's validation raises on this
/// account list, in the order the checks run.
pub open spec fn spec_mint2_check(accounts: Seq<AccountView>) -> Option<ProgramFault> {
    if accounts.len() < 1 {
        Some(ProgramFault::NotEnoughAccountKeys)
    } else if !accounts[0].is_signer {
        Some(ProgramFault::MissingRequiredSignature)
    } else if accounts.len() < 5 {
        Some(ProgramFault::NotEnoughAccountKeys)
    } else if accounts[4].key@ != token_program_id() {
        Some(ProgramFault::Custom(GloweError::AccountMismatch))
    } else if accounts[2].owner@ != token_program_id() || accounts[3].owner@
        != token_program_id() {
        Some(ProgramFault::IllegalOwner)
    } else if accounts.len() < 6 {
        Some(ProgramFault::NotEnoughAccountKeys)
    } else {
        None
    }
}

/// The plan the `Mint` pipeline produces: create both derived accounts, then
/// initialize the mint with itself as authority, initialize the holding
/// account for the owner, mint one unit, and clear the minting authority.
pub open spec fn spec_mint_plan_ok(
    plan: Seq<PlannedCall>,
    program_id: Seq<u8>,
    accounts: Seq<AccountView>,
    name: Seq<u8>,
) -> bool {
    let payer = accounts[0].key@;
    let owner = accounts[1].key@;
    let rent = accounts[6].key@;
    let mp = spec_mint_pda(program_id, token_program_id(), payer, name).unwrap();
    let tp = spec_token_pda(program_id, token_program_id(), payer, name, owner).unwrap();
    let mint_signer = spec_mint_seeds(program_id, token_program_id(), payer, name).push(
        seq![mp.1],
    );
    let token_signer = spec_token_seeds(program_id, token_program_id(), payer, name, owner).push(
        seq![tp.1],
    );
    &&& plan.len() == 6
    &&& (plan[0] matches PlannedCall::CreateAccount {
        funder,
        new_account,
        space,
        owning_program,
        signer_seeds,
    } && funder@ == payer && new_account@ == mp.0 && space == MINT_ACCOUNT_LEN && owning_program@
        == token_program_id() && signer_seeds.deep_view() == mint_signer)
    &&& (plan[1] matches PlannedCall::CreateAccount {
        funder,
        new_account,
        space,
        owning_program,
        signer_seeds,
    } && funder@ == payer && new_account@ == tp.0 && space == TOKEN_ACCOUNT_LEN && owning_program@
        == token_program_id() && signer_seeds.deep_view() == token_signer)
    &&& (plan[2] matches PlannedCall::InitializeMint {
        token_program,
        mint,
        authority,
        decimals,
        rent_account,
    } && token_program@ == token_program_id() && mint@ == mp.0 && authority@ == mp.0 && decimals
        == 0 && rent_account@ == rent)
    &&& (plan[3] matches PlannedCall::InitializeAccount {
        token_program,
        account,
        mint,
        owner: holder_owner,
        rent_account,
    } && token_program@ == token_program_id() && account@ == tp.0 && mint@ == mp.0 && holder_owner@
        == owner && rent_account@ == rent)
    &&& (plan[4] matches PlannedCall::MintTo {
        token_program,
        mint,
        destination,
        authority,
        amount,
        signer_seeds,
    } && token_program@ == token_program_id() && mint@ == mp.0 && destination@ == tp.0
        && authority@ == mp.0 && amount == 1 && signer_seeds.deep_view() == mint_signer)
    &&& (plan[5] matches PlannedCall::ClearMintAuthority {
        token_program,
        mint,
        authority,
        signer_seeds,
    } && token_program@ == token_program_id() && mint@ == mp.0 && authority@ == mp.0
        && signer_seeds.deep_view() == mint_signer)
}

/// The plan the `Mint2` pipeline produces: initialize the caller-supplied
/// mint with the minter as temporary authority, initialize the supplied
/// holding account for the receiver, mint one unit under the minter's direct
/// signature, and clear the minting authority.
pub open spec fn spec_mint2_plan_ok(plan: Seq<PlannedCall>, accounts: Seq<AccountView>) -> bool {
    let minter = accounts[0].key@;
    let receiver = accounts[1].key@;
    let mint_addr = accounts[2].key@;
    let holder = accounts[3].key@;
    let rent = accounts[5].key@;
    &&& plan.len() == 4
    &&& (plan[0] matches PlannedCall::InitializeMint {
        token_program,
        mint,
        authority,
        decimals,
        rent_account,
    } && token_program@ == token_program_id() && mint@ == mint_addr && authority@ == minter
        && decimals == 0 && rent_account@ == rent)
    &&& (plan[1] matches PlannedCall::InitializeAccount {
        token_program,
        account,
        mint,
        owner,
        rent_account,
    } && token_program@ == token_program_id() && account@ == holder && mint@ == mint_addr && owner@
        == receiver && rent_account@ == rent)
    &&& (plan[2] matches PlannedCall::MintTo {
        token_program,
        mint,
        destination,
        authority,
        amount,
        signer_seeds,
    } && token_program@ == token_program_id() && mint@ == mint_addr && destination@ == holder
        && authority@ == minter && amount == 1 && signer_seeds@.len() == 0)
    &&& (plan[3] matches PlannedCall::ClearMintAuthority {
        token_program,
        mint,
        authority,
        signer_seeds,
    } && token_program@ == token_program_id() && mint@ == mint_addr && authority@ == minter
        && signer_seeds@.len() == 0)
}

/// A successful run of either pipeline: its validation raises no fault and
/// its plan is the pipeline's fixed call sequence.
pub open spec fn spec_process_ok(
    plan: Seq<PlannedCall>,
    program_id: Seq<u8>,
    accounts: Seq<AccountView>,
    m: InstructionModel,
) -> bool {
    match m {
        InstructionModel::Mint { name, .. } => spec_mint_check(program_id, accounts, name)
            is None && spec_mint_plan_ok(plan, program_id, accounts, name),
        InstructionModel::Mint2 { .. } => spec_mint2_check(accounts) is None
            && spec_mint2_plan_ok(plan, accounts),
    }
}

/// A failed run: either the wire bytes decode to no request, or the decoded
/// request's validation raises exactly this fault.
pub open spec fn spec_process_fault(
    f: ProgramFault,
    program_id: Seq<u8>,
    accounts: Seq<AccountView>,
    data: Seq<u8>,
) -> bool {
    match spec_wire_model(data) {
        None => f == ProgramFault::Custom(GloweError::InvalidInstruction),
        Some(m) => match m {
            InstructionModel::Mint { name, .. } => spec_mint_check(program_id, accounts, name)
                == Some(f),
            InstructionModel::Mint2 { .. } => spec_mint2_check(accounts) == Some(f),
        },
    }
}

/// Supply cap: whichever pipeline succeeds, its plan issues units exactly
/// once, for exactly one unit, as its second-to-last call; the last call
/// permanently clears the minting authority of that same mint, so no later
/// call sequence can issue again.
pub proof fn lemma_supply_capped(
    plan: Seq<PlannedCall>,
    program_id: Seq<u8>,
    accounts: Seq<AccountView>,
    m: InstructionModel,
)
    requires
        spec_process_ok(plan, program_id, accounts, m),
    ensures
        plan.len() >= 2,
        plan[plan.len() - 2] is MintTo,
        forall|i: int|
            0 <= i < plan.len() ==> ((#[trigger] plan[i]) matches PlannedCall::MintTo {
                amount,
                ..
            } ==> amount == 1),
        forall|i: int| 0 <= i < plan.len() - 2 ==> !((#[trigger] plan[i]) is MintTo),
        plan[plan.len() - 1] is ClearMintAuthority,
        planned_target(plan[plan.len() - 2]) == planned_target(plan[plan.len() - 1]),
{
    match m {
        InstructionModel::Mint { name, .. } => {
            assert(plan.len() == 6);
        },
        InstructionModel::Mint2 { .. } => {
            assert(plan.len() == 4);
        },
    }
}

/// Idempotent addressing: two `Mint` runs over the same program, account
/// list and name plan the creation of the same two account addresses, so a
/// repeated run targets addresses the first run has already populated and
/// leaves it to the system service to refuse the duplicate creation.
pub proof fn lemma_repeat_mint_targets_same_accounts(
    plan1: Seq<PlannedCall>,
    plan2: Seq<PlannedCall>,
    program_id: Seq<u8>,
    accounts: Seq<AccountView>,
    name: Seq<u8>,
)
    requires
        spec_mint_plan_ok(plan1, program_id, accounts, name),
        spec_mint_plan_ok(plan2, program_id, accounts, name),
    ensures
        planned_target(plan1[0]) == planned_target(plan2[0]),
        planned_target(plan1[1]) == planned_target(plan2[1]),
{
}

/// Authentication: when the well-known identities check out and the payer
/// signed, but the supplied mint account differs from the re-derived mint
/// address — whatever address was substituted — the `Mint` pipeline faults
/// with `AccountMismatch` and plans no call.
pub proof fn lemma_mint_authentication(
    program_id: Seq<u8>,
    accounts: Seq<AccountView>,
    name: Seq<u8>,
)
    requires
        accounts.len() >= 7,
        accounts[0].is_signer,
        accounts[4].key@ == token_program_id(),
        accounts[5].key@ == system_program_id(),
        spec_mint_pda(program_id, token_program_id(), accounts[0].key@, name) matches Some(p)
            && p.0 != accounts[2].key@,
    ensures
        spec_mint_check(program_id, accounts, name) == Some(
            ProgramFault::Custom(GloweError::AccountMismatch),
        ),
{
}

/// A byte string of one byte.
fn single_byte(b: u8) -> (r: Vec<u8>)
    ensures
        r@ == seq![b],
{
    let mut r: Vec<u8> = Vec::new();
    r.push(b);
    proof {
        assert(r@ =~= seq![b]);
    }
    r
}

/// Copies a seed list.
fn clone_seeds(s: &Vec<Vec<u8>>) -> (r: Vec<Vec<u8>>)
    ensures
        r.deep_view() == s.deep_view(),
{
    let mut r: Vec<Vec<u8>> = Vec::new();
    let mut i: usize = 0;
    while i < s.len()
        invariant
            i <= s@.len(),
            r@.len() == i,
            forall|j: int| 0 <= j < i ==> r@[j]@ == s@[j]@,
        decreases s@.len() - i,
    {
        r.push(vstd::slice::slice_to_vec(s[i].as_slice()));
        i += 1;
    }
    proof {
        assert(r.deep_view() =~~= s.deep_view());
    }
    r
}

/// The on-ledger entry point's logic.
pub struct Processor;

impl Processor {
    /// Runs the `Mint` pipeline's validation on the supplied accounts and,
    /// when every check passes, returns its planned call sequence.
    pub fn process_mint(
        program_id: &Address,
        accounts: &Vec<AccountView>,
        name: Vec<u8>,
        _url: Vec<u8>,
    ) -> (r: Result<Vec<PlannedCall>, ProgramFault>)
        ensures
            match r {
                Ok(plan) => spec_mint_check(program_id@, accounts@, name@) is None
                    && spec_mint_plan_ok(plan@, program_id@, accounts@, name@),
                Err(f) => spec_mint_check(program_id@, accounts@, name@) == Some(f),
            },
    {
        if accounts.len() < 1 {
            return Err(ProgramFault::NotEnoughAccountKeys);
        }
        let minter = accounts[0];
        if !minter.is_signer {
            return Err(ProgramFault::MissingRequiredSignature);
        }
        if accounts.len() < 5 {
            return Err(ProgramFault::NotEnoughAccountKeys);
        }
        let owner = accounts[1];
        let mint_account = accounts[2];
        let token_account = accounts[3];
        let token_program = accounts[4];
        let expected_token = token_program_address();
        if !token_program.key.eq_address(&expected_token) {
            return Err(ProgramFault::Custom(GloweError::AccountMismatch));
        }
        if accounts.len() < 6 {
            return Err(ProgramFault::NotEnoughAccountKeys);
        }
        let system_account = accounts[5];
        let expected_system = system_program_address();
        if !system_account.key.eq_address(&expected_system) {
            return Err(ProgramFault::Custom(GloweError::AccountMismatch));
        }
        let derived_mint = derive_mint_account_internal(
            program_id,
            &expected_token,
            &minter.key,
            &name,
        );
        let (mint_pda, mint_bump) = match derived_mint {
            Some(p) => p,
            None => {
                return Err(ProgramFault::NoViableAddress);
            },
        };
        if !mint_pda.eq_address(&mint_account.key) {
            return Err(ProgramFault::Custom(GloweError::AccountMismatch));
        }
        let derived_token = derive_token_account_internal(
            program_id,
            &expected_token,
            &minter.key,
            &name,
            &owner.key,
        );
        let (token_pda, token_bump) = match derived_token {
            Some(p) => p,
            None => {
                return Err(ProgramFault::NoViableAddress);
            },
        };
        if !token_pda.eq_address(&token_account.key) {
            return Err(ProgramFault::Custom(GloweError::AccountMismatch));
        }
        if accounts.len() < 7 {
            return Err(ProgramFault::NotEnoughAccountKeys);
        }
        let rent_account = accounts[6];
        let expected_rent = rent_sysvar_address();
        if !rent_account.key.eq_address(&expected_rent) {
            return Err(ProgramFault::InvalidArgument);
        }
        let mut mint_signer = derive_mint_account_seeds(
            program_id,
            &expected_token,
            &minter.key,
            &name,
        );
        mint_signer.push(single_byte(mint_bump));
        let mut token_signer = derive_token_account_seeds(
            program_id,
            &expected_token,
            &minter.key,
            &name,
            &owner.key,
        );
        token_signer.push(single_byte(token_bump));
        proof {
            assert(mint_signer.deep_view() =~~= spec_mint_seeds(
                program_id@,
                token_program_id(),
                minter.key@,
                name@,
            ).push(seq![mint_bump]));
            assert(token_signer.deep_view() =~~= spec_token_seeds(
                program_id@,
                token_program_id(),
                minter.key@,
                name@,
                owner.key@,
            ).push(seq![token_bump]));
        }
        let mut plan: Vec<PlannedCall> = Vec::new();
        plan.push(PlannedCall::CreateAccount {
            funder: minter.key,
            new_account: mint_pda,
            space: MINT_ACCOUNT_LEN,
            owning_program: expected_token,
            signer_seeds: clone_seeds(&mint_signer),
        });
        plan.push(PlannedCall::CreateAccount {
            funder: minter.key,
            new_account: token_pda,
            space: TOKEN_ACCOUNT_LEN,
            owning_program: expected_token,
            signer_seeds: token_signer,
        });
        plan.push(PlannedCall::InitializeMint {
            token_program: expected_token,
            mint: mint_pda,
            authority: mint_pda,
            decimals: 0,
            rent_account: rent_account.key,
        });
        plan.push(PlannedCall::InitializeAccount {
            token_program: expected_token,
            account: token_pda,
            mint: mint_pda,
            owner: owner.key,
            rent_account: rent_account.key,
        });
        plan.push(PlannedCall::MintTo {
            token_program: expected_token,
            mint: mint_pda,
            destination: token_pda,
            authority: mint_pda,
            amount: 1,
            signer_seeds: clone_seeds(&mint_signer),
        });
        plan.push(PlannedCall::ClearMintAuthority {
            token_program: expected_token,
            mint: mint_pda,
            authority: mint_pda,
            signer_seeds: mint_signer,
        });
        Ok(plan)
    }

    /// Runs the `Mint2` pipeline's validation on the supplied accounts and,
    /// when every check passes, returns its planned call sequence.
    pub fn process_mint2(
        program_id: &Address,
        accounts: &Vec<AccountView>,
        _name: Vec<u8>,
        _url: Vec<u8>,
    ) -> (r: Result<Vec<PlannedCall>, ProgramFault>)
        ensures
            match r {
                Ok(plan) => spec_mint2_check(accounts@) is None && spec_mint2_plan_ok(
                    plan@,
                    accounts@,
                ),
                Err(f) => spec_mint2_check(accounts@) == Some(f),
            },
    {
        if accounts.len() < 1 {
            return Err(ProgramFault::NotEnoughAccountKeys);
        }
        let minter = accounts[0];
        if !minter.is_signer {
            return Err(ProgramFault::MissingRequiredSignature);
        }
        if accounts.len() < 5 {
            return Err(ProgramFault::NotEnoughAccountKeys);
        }
        let receiver = accounts[1];
        let mint_account = accounts[2];
        let token_account = accounts[3];
        let token_program = accounts[4];
        let expected_token = token_program_address();
        if !token_program.key.eq_address(&expected_token) {
            return Err(ProgramFault::Custom(GloweError::AccountMismatch));
        }
        if !mint_account.owner.eq_address(&expected_token) || !token_account.owner.eq_address(
            &expected_token,
        ) {
            return Err(ProgramFault::IllegalOwner);
        }
        if accounts.len() < 6 {
            return Err(ProgramFault::NotEnoughAccountKeys);
        }
        let rent_account = accounts[5];
        let mut plan: Vec<PlannedCall> = Vec::new();
        plan.push(PlannedCall::InitializeMint {
            token_program: expected_token,
            mint: mint_account.key,
            authority: minter.key,
            decimals: 0,
            rent_account: rent_account.key,
        });
        plan.push(PlannedCall::InitializeAccount {
            token_program: expected_token,
            account: token_account.key,
            mint: mint_account.key,
            owner: receiver.key,
            rent_account: rent_account.key,
        });
        plan.push(PlannedCall::MintTo {
            token_program: expected_token,
            mint: mint_account.key,
            destination: token_account.key,
            authority: minter.key,
            amount: 1,
            signer_seeds: Vec::new(),
        });
        plan.push(PlannedCall::ClearMintAuthority {
            token_program: expected_token,
            mint: mint_account.key,
            authority: minter.key,
            signer_seeds: Vec::new(),
        });
        Ok(plan)
    }

    /// Decodes the wire message, dispatches to the pipeline it names, and
    /// returns that pipeline's planned calls or its first fault.
    pub fn process(
        program_id: &Address,
        accounts: &Vec<AccountView>,
        instruction_data: &[u8],
    ) -> (r: Result<Vec<PlannedCall>, ProgramFault>)
        ensures
            match r {
                Ok(plan) => spec_wire_model(instruction_data@) matches Some(m) && spec_process_ok(
                    plan@,
                    program_id@,
                    accounts@,
                    m,
                ),
                Err(f) => spec_process_fault(f, program_id@, accounts@, instruction_data@),
            },
    {
        let instr = match decode(instruction_data) {
            Ok(i) => i,
            Err(e) => {
                return Err(ProgramFault::Custom(e));
            },
        };
        proof {
            let mc = choose|m: InstructionModel|
                wf_model(m) && instruction_data@ == #[trigger] spec_encode(m);
            assert(wf_model(instr@) && instruction_data@ == spec_encode(instr@));
            crate::instructions::lemma_encode_injective(mc, instr@);
            assert(spec_wire_model(instruction_data@) == Some(instr@));
        }
        match instr {
            GloweInstruction::Mint { name, url } => Self::process_mint(
                program_id,
                accounts,
                name,
                url,
            ),
            GloweInstruction::Mint2 { name, url } => Self::process_mint2(
                program_id,
                accounts,
                name,
                url,
            ),
        }
    }
}

} // verus!
