use vstd::prelude::*;

verus! {

/// The three kinds of zombie.
#[derive(Clone, Copy, Debug, PartialEq, Eq, Structural)]
pub enum ZombieType {
    CommonZM,
    ConeHeadZM,
    PoleVaultingZM,
}

impl ZombieType {
    pub open spec fn spec_type_to_index(&self) -> usize {
        match *self {
            ZombieType::CommonZM => 0,
            ZombieType::ConeHeadZM => 1,
            ZombieType::PoleVaultingZM => 2,
        }
    }

    pub open spec fn spec_type_to_blood(&self) -> i32 {
        match *self {
            ZombieType::CommonZM => 300,
            ZombieType::ConeHeadZM => 700,
            ZombieType::PoleVaultingZM => 800,
        }
    }

    /// Index of the zombie's animation set.
    #[verifier::when_used_as_spec(spec_type_to_index)]
    pub fn type_to_index(&self) -> (r: usize)
        ensures
            r == self.spec_type_to_index(),
    {
        match self {
            ZombieType::CommonZM => 0,
            ZombieType::ConeHeadZM => 1,
            ZombieType::PoleVaultingZM => 2,
        }
    }

    /// Health points of a freshly spawned zombie.
    #[verifier::when_used_as_spec(spec_type_to_blood)]
    pub fn type_to_blood(&self) -> (r: i32)
        ensures
            r == self.spec_type_to_blood(),
    {
        match self {
            ZombieType::CommonZM => 300,
            ZombieType::ConeHeadZM => 700,
            ZombieType::PoleVaultingZM => 800,
        }
    }

    /// The zombie type with the given index; indices above 2 are refused.
    pub fn try_from(value: usize) -> (r: Result<ZombieType, &'static str>)
        ensures
            value <= 2 <==> r is Ok,
            r matches Ok(t) ==> t.spec_type_to_index() == value,
            value > 2 ==> r == Err::<ZombieType, &'static str>("Invalid number for ZombieType"),
    {
        match value {
            0 => Ok(ZombieType::CommonZM),
            1 => Ok(ZombieType::ConeHeadZM),
            2 => Ok(ZombieType::PoleVaultingZM),
            _ => Err("Invalid number for ZombieType"),
        }
    }
}

/// The animation states of a zombie.
#[derive(Clone, Copy, Debug, PartialEq, Eq, Structural)]
pub enum ZombieStatus {
    /// Walking towards the house (the first walk of a pole vaulter).
    Walk0,
    Eat,
    Dead,
    Jump,
    /// A pole vaulter walking after its jump.
    Walk1,
}

impl ZombieStatus {
    pub open spec fn spec_status_to_index(&self) -> usize {
        match *self {
            ZombieStatus::Walk0 => 0,
            ZombieStatus::Eat => 1,
            ZombieStatus::Dead => 2,
            ZombieStatus::Walk1 => 3,
            ZombieStatus::Jump => 4,
        }
    }

    pub open spec fn spec_status_to_frame_num(&self, zombie_type: &ZombieType) -> usize {
        match *zombie_type {
            ZombieType::CommonZM => match *self {
                ZombieStatus::Walk0 => 22,
                ZombieStatus::Eat => 21,
                ZombieStatus::Dead => 10,
                _ => 0,
            },
            ZombieType::ConeHeadZM => match *self {
                ZombieStatus::Walk0 => 20,
                ZombieStatus::Eat => 10,
                ZombieStatus::Dead => 10,
                _ => 0,
            },
            ZombieType::PoleVaultingZM => match *self {
                ZombieStatus::Walk0 => 10,
                ZombieStatus::Eat => 14,
                ZombieStatus::Dead => 9,
                ZombieStatus::Walk1 => 25,
                ZombieStatus::Jump => 16,
            },
        }
    }

    /// Index of the status's animation within the zombie's animation set.
    #[verifier::when_used_as_spec(spec_status_to_index)]
    pub fn status_to_index(&self) -> (r: usize)
        ensures
            r == self.spec_status_to_index(),
    {
        match self {
            ZombieStatus::Walk0 => 0,
            ZombieStatus::Eat => 1,
            ZombieStatus::Dead => 2,
            ZombieStatus::Walk1 => 3,
            ZombieStatus::Jump => 4,
        }
    }

    /// Number of frames of the animation for this status and zombie type
    /// (0 where the type has no such animation).
    #[verifier::when_used_as_spec(spec_status_to_frame_num)]
    pub fn status_to_frame_num(&self, zombie_type: &ZombieType) -> (r: usize)
        ensures
            r == self.spec_status_to_frame_num(zombie_type),
    {
        match zombie_type {
            ZombieType::CommonZM => match self {
                ZombieStatus::Walk0 => 22,
                ZombieStatus::Eat => 21,
                ZombieStatus::Dead => 10,
                _ => 0,
            },
            ZombieType::ConeHeadZM => match self {
                ZombieStatus::Walk0 => 20,
                ZombieStatus::Eat => 10,
                ZombieStatus::Dead => 10,
                _ => 0,
            },
            ZombieType::PoleVaultingZM => match self {
                ZombieStatus::Walk0 => 10,
                ZombieStatus::Eat => 14,
                ZombieStatus::Dead => 9,
                ZombieStatus::Walk1 => 25,
                ZombieStatus::Jump => 16,
            },
        }
    }
}

} // verus!
