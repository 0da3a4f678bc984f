use vstd::prelude::*;

use super::my_enum::car_enum::CarStatus;

verus! {

/// A lawn mower guarding one row.  Its position is kept by the caller,
/// which moves a running mower and reports when it has left the screen.
#[derive(Clone, Copy, Debug)]
pub struct Car {
    pub row: u32,
    pub status: CarStatus,
    pub used: bool,
    pub frame: usize,
}

impl Car {
    /// A fresh, unused value.
    pub open spec fn spec_new(row: u32) -> Car {
        Car { row, status: CarStatus::Stopping, used: true, frame: 0 }
    }

    pub fn new(row: u32) -> (c: Car)
        ensures
            c == Car::spec_new(row),
    {
        Car { row, status: CarStatus::Stopping, used: true, frame: 0 }
    }

    pub fn is_used(&self) -> (r: bool)
        ensures
            r == self.used,
    {
        self.used
    }

    pub fn get_row(&self) -> (r: u32)
        ensures
            r == self.row,
    {
        self.row
    }

    pub fn get_status(&self) -> (r: &CarStatus)
        ensures
            *r == self.status,
    {
        &self.status
    }

    pub fn become_running(&mut self)
        ensures
            *final(self) == (Car { status: CarStatus::Running, ..*old(self) }),
    {
        self.status = CarStatus::Running;
    }

    /// One frame of the mower: a running mower that has passed the right
    /// edge of the screen (`past_right_edge`, after the caller moved it) is
    /// gone.
    pub fn update(&mut self, past_right_edge: bool)
        ensures
            *final(self) == (Car {
                used: old(self).used && !(old(self).status == CarStatus::Running && past_right_edge),
                ..*old(self)
            }),
    {
        match self.status {
            CarStatus::Running => {
                if past_right_edge {
                    self.used = false;
                }
            },
            CarStatus::Stopping => {},
        }
    }
}

} // verus!
