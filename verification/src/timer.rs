//! Frame-based countdown timers.

use vstd::prelude::*;
use std::marker::PhantomData;

verus! {

/// A countdown measured in simulation frames, with the interval it restarts from.
pub struct Timer {
    pub interval: u32,
    pub countdown: u32,
}

impl Timer {
    /// A timer that restarts from `interval` and currently holds `initial_countdown`.
    pub fn new(interval: u32, initial_countdown: u32) -> (timer: Self)
        ensures
            timer.interval == interval,
            timer.countdown == initial_countdown,
    {
        Self { interval, countdown: initial_countdown }
    }
}

/// A timer that is told apart from other timers by the type of its purpose.
pub struct TypedTimer<T> {
    timer: Timer,
    _marker: PhantomData<T>,
}

impl<T> TypedTimer<T> {
    /// The frames left until the timer expires.
    pub closed spec fn countdown(&self) -> u32 {
        self.timer.countdown
    }

    /// The frames from which the timer restarts.
    pub closed spec fn interval(&self) -> u32 {
        self.timer.interval
    }

    /// A timer that restarts from `spawn_interval` and currently holds `initial_countdown`.
    pub fn new(spawn_interval: u32, initial_countdown: u32) -> (timer: Self)
        ensures
            timer.interval() == spawn_interval,
            timer.countdown() == initial_countdown,
    {
        Self { timer: Timer::new(spawn_interval, initial_countdown), _marker: PhantomData }
    }

    /// The frames left until the timer expires.
    pub fn get_countdown(&self) -> (countdown: u32)
        ensures
            countdown == self.countdown(),
    {
        self.timer.countdown
    }

    /// Restarts the countdown from the interval.
    pub fn reset(&mut self)
        ensures
            final(self).countdown() == old(self).interval(),
            final(self).interval() == old(self).interval(),
    {
        self.timer.countdown = self.timer.interval;
    }

    /// Counts one frame down; an expired timer stays at zero.
    pub fn step(&mut self)
        ensures
            final(self).countdown() == if old(self).countdown() > 0 {
                (old(self).countdown() - 1) as u32
            } else {
                0
            },
            final(self).interval() == old(self).interval(),
    {
        if self.timer.countdown > 0 {
            self.timer.countdown -= 1;
        }
    }
}

pub struct ForAsteroidSpawning;

pub struct ForGunSpawning;

pub struct ForEnemySpawning;

pub type AsteroidSpawnTimer = TypedTimer<ForAsteroidSpawning>;

pub type GunSpawnTimer = TypedTimer<ForGunSpawning>;

pub type EnemySpawnTimer = TypedTimer<ForEnemySpawning>;

} // verus!
