use crate::common::error::SettingAccountError;
use crate::common::event::CloseSettingAccountEvent;
use crate::common::pubkey::Pubkey;
use crate::states::setting_account::SettingAccount;
use vstd::prelude::*;

verus! {

/// Length of the marker at the head of an account's data.
pub const DISCRIMINATOR_BYTES: usize = 8;

/// The marker of a closed account: eight bytes of 255.
pub open spec fn closed_marker() -> Seq<u8> {
    Seq::new(DISCRIMINATOR_BYTES as nat, |i: int| 255u8)
}

/// The data of a closed account of `len` bytes: the marker, then zeroes.
pub open spec fn closed_data(len: nat) -> Seq<u8> {
    Seq::new(
        len,
        |i: int|
            if i < DISCRIMINATOR_BYTES {
                255u8
            } else {
                0u8
            },
    )
}

/// The marker that Anchor puts at the head of a closed account's data: the
/// constant `anchor_lang::__private::CLOSED_ACCOUNT_DISCRIMINATOR`. Trusted to
/// be eight bytes of 255, as the constant's definition reads.
#[verifier::external_body]
fn closed_account_discriminator() -> (marker: [u8; 8])
    ensures
        marker@ == closed_marker(),
{
    anchor_lang::__private::CLOSED_ACCOUNT_DISCRIMINATOR
}

/// The records that the closing of a tier configuration works on.
#[derive(Clone, Debug, PartialEq, Eq)]
pub struct CloseSettingAccount {
    /// Who closes, and who takes the configuration's lamports.
    pub owner: Pubkey,
    pub owner_lamports: u64,
    pub setting_account: SettingAccount,
    /// The lamports that keep the configuration's record alive.
    pub setting_account_lamports: u64,
    /// The record's raw data.
    pub setting_account_data: Vec<u8>,
}

impl CloseSettingAccount {
    /// Why the closing is turned down, if it is.
    pub open spec fn rejection(&self, tier_id: Seq<char>) -> Option<SettingAccountError> {
        if self.setting_account.owner != self.owner {
            Some(SettingAccountError::InvalidOwner)
        } else if self.setting_account.tier_id@ != tier_id {
            Some(SettingAccountError::InvalidTierId)
        } else {
            None
        }
    }

    /// Whether the closing can be carried out: the owner's balance can take
    /// the record's lamports, and the record's data has room for the marker.
    pub open spec fn closable(&self) -> bool {
        &&& self.owner_lamports + self.setting_account_lamports <= u64::MAX
        &&& self.setting_account_data@.len() >= DISCRIMINATOR_BYTES
    }

    /// Whether the closing can be carried out; see [`Self::closable`].
    pub fn is_closable(&self) -> (ok: bool)
        ensures
            ok == self.closable(),
    {
        self.owner_lamports.checked_add(self.setting_account_lamports).is_some()
            && self.setting_account_data.len() >= DISCRIMINATOR_BYTES
    }

    /// Closes the tier configuration named `tier_id`.
    ///
    /// For its owner and under its own id, all of the record's lamports go to
    /// the owner, and the record's data becomes the closed marker followed by
    /// zeroes, at its old length. Any other closing is turned down and leaves
    /// the records as they were.
    pub fn close_setting_account(&mut self, tier_id: String) -> (result: Result<
        CloseSettingAccountEvent,
        SettingAccountError,
    >)
        requires
            old(self).rejection(tier_id@) is None ==> old(self).closable(),
        ensures
            match result {
                Ok(event) => {
                    &&& old(self).rejection(tier_id@) is None
                    &&& event == (CloseSettingAccountEvent { tier_id })
                    &&& final(self).owner == old(self).owner
                    &&& final(self).setting_account == old(self).setting_account
                    &&& final(self).owner_lamports == old(self).owner_lamports + old(
                        self,
                    ).setting_account_lamports
                    &&& final(self).setting_account_lamports == 0
                    &&& final(self).setting_account_data@ == closed_data(
                        old(self).setting_account_data@.len(),
                    )
                },
                Err(e) => old(self).rejection(tier_id@) == Some(e) && *final(self) == *old(self),
            },
    {
        if self.setting_account.owner != self.owner {
            return Err(SettingAccountError::InvalidOwner);
        }
        if self.setting_account.tier_id != tier_id {
            return Err(SettingAccountError::InvalidTierId);
        }
        let marker: [u8; 8] = closed_account_discriminator();
        let len: usize = self.setting_account_data.len();
        let mut data: Vec<u8> = Vec::with_capacity(len);
        let mut i: usize = 0;
        while i < len
            invariant
                i <= len,
                marker@ == closed_marker(),
                data@ == closed_data(i as nat),
            decreases len - i,
        {
            if i < DISCRIMINATOR_BYTES {
                data.push(marker[i]);
            } else {
                data.push(0u8);
            }
            i += 1;
        }
        self.owner_lamports = self.owner_lamports + self.setting_account_lamports;
        self.setting_account_lamports = 0;
        self.setting_account_data = data;
        Ok(CloseSettingAccountEvent { tier_id })
    }
}

} // verus!
