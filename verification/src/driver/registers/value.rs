//! A register together with what it holds.
#![allow(non_camel_case_types)]

use vstd::prelude::*;

use super::data::ChSetReg;
use super::data::Config1Reg;
use super::data::Config2Reg;
use super::data::Config3Reg;
use super::data::Config4Reg;
use super::data::GpioReg;
use super::data::IdReg;
use super::data::LOffReg;
use super::data::LOffSensNReg;
use super::data::LOffSensPReg;
use super::data::LOffStatNReg;
use super::data::LOffStatPReg;
use super::data::LoffFlipReg;
use super::data::PaceReg;
use super::data::RespReg;
use super::data::RldSensNReg;
use super::data::RldSensPReg;
use super::data::Wct1Reg;
use super::data::Wct2Reg;
use super::Register;

verus! {

/// The value of one register, in the form that belongs to the register.
#[derive(Clone, Copy, Debug, PartialEq, Eq, Structural)]
pub enum RegisterValue {
    ID(IdReg),
    CONFIG1(Config1Reg),
    CONFIG2(Config2Reg),
    CONFIG3(Config3Reg),
    LOFF(LOffReg),
    CH1SET(ChSetReg),
    CH2SET(ChSetReg),
    CH3SET(ChSetReg),
    CH4SET(ChSetReg),
    CH5SET(ChSetReg),
    CH6SET(ChSetReg),
    CH7SET(ChSetReg),
    CH8SET(ChSetReg),
    RLD_SENSP(RldSensPReg),
    RLD_SENSN(RldSensNReg),
    LOFF_SENSP(LOffSensPReg),
    LOFF_SENSN(LOffSensNReg),
    LOFF_FLIP(LoffFlipReg),
    LOFF_STATP(LOffStatPReg),
    LOFF_STATN(LOffStatNReg),
    GPIO(GpioReg),
    PACE(PaceReg),
    RESP(RespReg),
    CONFIG4(Config4Reg),
    WCT1(Wct1Reg),
    WCT2(Wct2Reg),
}

impl RegisterValue {
    /// The register that the value belongs to.
    pub open spec fn register_of(self) -> Register {
        match self {
            RegisterValue::ID(_) => Register::ID,
            RegisterValue::CONFIG1(_) => Register::CONFIG1,
            RegisterValue::CONFIG2(_) => Register::CONFIG2,
            RegisterValue::CONFIG3(_) => Register::CONFIG3,
            RegisterValue::LOFF(_) => Register::LOFF,
            RegisterValue::CH1SET(_) => Register::CH1SET,
            RegisterValue::CH2SET(_) => Register::CH2SET,
            RegisterValue::CH3SET(_) => Register::CH3SET,
            RegisterValue::CH4SET(_) => Register::CH4SET,
            RegisterValue::CH5SET(_) => Register::CH5SET,
            RegisterValue::CH6SET(_) => Register::CH6SET,
            RegisterValue::CH7SET(_) => Register::CH7SET,
            RegisterValue::CH8SET(_) => Register::CH8SET,
            RegisterValue::RLD_SENSP(_) => Register::RLD_SENSP,
            RegisterValue::RLD_SENSN(_) => Register::RLD_SENSN,
            RegisterValue::LOFF_SENSP(_) => Register::LOFF_SENSP,
            RegisterValue::LOFF_SENSN(_) => Register::LOFF_SENSN,
            RegisterValue::LOFF_FLIP(_) => Register::LOFF_FLIP,
            RegisterValue::LOFF_STATP(_) => Register::LOFF_STATP,
            RegisterValue::LOFF_STATN(_) => Register::LOFF_STATN,
            RegisterValue::GPIO(_) => Register::GPIO,
            RegisterValue::PACE(_) => Register::PACE,
            RegisterValue::RESP(_) => Register::RESP,
            RegisterValue::CONFIG4(_) => Register::CONFIG4,
            RegisterValue::WCT1(_) => Register::WCT1,
            RegisterValue::WCT2(_) => Register::WCT2,
        }
    }

    /// The byte that the register holds.
    pub open spec fn byte(self) -> u8 {
        match self {
            RegisterValue::ID(v) => v.0,
            RegisterValue::CONFIG1(v) => v.0,
            RegisterValue::CONFIG2(v) => v.0,
            RegisterValue::CONFIG3(v) => v.0,
            RegisterValue::LOFF(v) => v.0,
            RegisterValue::CH1SET(v) => v.0,
            RegisterValue::CH2SET(v) => v.0,
            RegisterValue::CH3SET(v) => v.0,
            RegisterValue::CH4SET(v) => v.0,
            RegisterValue::CH5SET(v) => v.0,
            RegisterValue::CH6SET(v) => v.0,
            RegisterValue::CH7SET(v) => v.0,
            RegisterValue::CH8SET(v) => v.0,
            RegisterValue::RLD_SENSP(v) => v.0,
            RegisterValue::RLD_SENSN(v) => v.0,
            RegisterValue::LOFF_SENSP(v) => v.0,
            RegisterValue::LOFF_SENSN(v) => v.0,
            RegisterValue::LOFF_FLIP(v) => v.0,
            RegisterValue::LOFF_STATP(v) => v.0,
            RegisterValue::LOFF_STATN(v) => v.0,
            RegisterValue::GPIO(v) => v.0,
            RegisterValue::PACE(v) => v.0,
            RegisterValue::RESP(v) => v.0,
            RegisterValue::CONFIG4(v) => v.0,
            RegisterValue::WCT1(v) => v.0,
            RegisterValue::WCT2(v) => v.0,
        }
    }

    /// The value of `register` that is the byte `raw`.
    pub open spec fn of(register: Register, raw: u8) -> RegisterValue {
        match register {
            Register::ID => RegisterValue::ID(IdReg(raw)),
            Register::CONFIG1 => RegisterValue::CONFIG1(Config1Reg(raw)),
            Register::CONFIG2 => RegisterValue::CONFIG2(Config2Reg(raw)),
            Register::CONFIG3 => RegisterValue::CONFIG3(Config3Reg(raw)),
            Register::LOFF => RegisterValue::LOFF(LOffReg(raw)),
            Register::CH1SET => RegisterValue::CH1SET(ChSetReg(raw)),
            Register::CH2SET => RegisterValue::CH2SET(ChSetReg(raw)),
            Register::CH3SET => RegisterValue::CH3SET(ChSetReg(raw)),
            Register::CH4SET => RegisterValue::CH4SET(ChSetReg(raw)),
            Register::CH5SET => RegisterValue::CH5SET(ChSetReg(raw)),
            Register::CH6SET => RegisterValue::CH6SET(ChSetReg(raw)),
            Register::CH7SET => RegisterValue::CH7SET(ChSetReg(raw)),
            Register::CH8SET => RegisterValue::CH8SET(ChSetReg(raw)),
            Register::RLD_SENSP => RegisterValue::RLD_SENSP(RldSensPReg(raw)),
            Register::RLD_SENSN => RegisterValue::RLD_SENSN(RldSensNReg(raw)),
            Register::LOFF_SENSP => RegisterValue::LOFF_SENSP(LOffSensPReg(raw)),
            Register::LOFF_SENSN => RegisterValue::LOFF_SENSN(LOffSensNReg(raw)),
            Register::LOFF_FLIP => RegisterValue::LOFF_FLIP(LoffFlipReg(raw)),
            Register::LOFF_STATP => RegisterValue::LOFF_STATP(LOffStatPReg(raw)),
            Register::LOFF_STATN => RegisterValue::LOFF_STATN(LOffStatNReg(raw)),
            Register::GPIO => RegisterValue::GPIO(GpioReg(raw)),
            Register::PACE => RegisterValue::PACE(PaceReg(raw)),
            Register::RESP => RegisterValue::RESP(RespReg(raw)),
            Register::CONFIG4 => RegisterValue::CONFIG4(Config4Reg(raw)),
            Register::WCT1 => RegisterValue::WCT1(Wct1Reg(raw)),
            Register::WCT2 => RegisterValue::WCT2(Wct2Reg(raw)),
        }
    }

    /// A value is the value of its register that is its byte, and the value
    /// of a register that is a byte belongs to that register and holds that
    /// byte.
    pub proof fn lemma_of_register_and_byte(self, register: Register, raw: u8)
        ensures
            RegisterValue::of(self.register_of(), self.byte()) == self,
            RegisterValue::of(register, raw).register_of() == register,
            RegisterValue::of(register, raw).byte() == raw,
    {
    }

    pub fn register(&self) -> (r: Register)
        ensures
            r == self.register_of(),
    {
        match *self {
            RegisterValue::ID(_) => Register::ID,
            RegisterValue::CONFIG1(_) => Register::CONFIG1,
            RegisterValue::CONFIG2(_) => Register::CONFIG2,
            RegisterValue::CONFIG3(_) => Register::CONFIG3,
            RegisterValue::LOFF(_) => Register::LOFF,
            RegisterValue::CH1SET(_) => Register::CH1SET,
            RegisterValue::CH2SET(_) => Register::CH2SET,
            RegisterValue::CH3SET(_) => Register::CH3SET,
            RegisterValue::CH4SET(_) => Register::CH4SET,
            RegisterValue::CH5SET(_) => Register::CH5SET,
            RegisterValue::CH6SET(_) => Register::CH6SET,
            RegisterValue::CH7SET(_) => Register::CH7SET,
            RegisterValue::CH8SET(_) => Register::CH8SET,
            RegisterValue::RLD_SENSP(_) => Register::RLD_SENSP,
            RegisterValue::RLD_SENSN(_) => Register::RLD_SENSN,
            RegisterValue::LOFF_SENSP(_) => Register::LOFF_SENSP,
            RegisterValue::LOFF_SENSN(_) => Register::LOFF_SENSN,
            RegisterValue::LOFF_FLIP(_) => Register::LOFF_FLIP,
            RegisterValue::LOFF_STATP(_) => Register::LOFF_STATP,
            RegisterValue::LOFF_STATN(_) => Register::LOFF_STATN,
            RegisterValue::GPIO(_) => Register::GPIO,
            RegisterValue::PACE(_) => Register::PACE,
            RegisterValue::RESP(_) => Register::RESP,
            RegisterValue::CONFIG4(_) => Register::CONFIG4,
            RegisterValue::WCT1(_) => Register::WCT1,
            RegisterValue::WCT2(_) => Register::WCT2,
        }
    }

    pub fn raw(&self) -> (r: u8)
        ensures
            r == self.byte(),
    {
        match *self {
            RegisterValue::ID(v) => v.0,
            RegisterValue::CONFIG1(v) => v.0,
            RegisterValue::CONFIG2(v) => v.0,
            RegisterValue::CONFIG3(v) => v.0,
            RegisterValue::LOFF(v) => v.0,
            RegisterValue::CH1SET(v) => v.0,
            RegisterValue::CH2SET(v) => v.0,
            RegisterValue::CH3SET(v) => v.0,
            RegisterValue::CH4SET(v) => v.0,
            RegisterValue::CH5SET(v) => v.0,
            RegisterValue::CH6SET(v) => v.0,
            RegisterValue::CH7SET(v) => v.0,
            RegisterValue::CH8SET(v) => v.0,
            RegisterValue::RLD_SENSP(v) => v.0,
            RegisterValue::RLD_SENSN(v) => v.0,
            RegisterValue::LOFF_SENSP(v) => v.0,
            RegisterValue::LOFF_SENSN(v) => v.0,
            RegisterValue::LOFF_FLIP(v) => v.0,
            RegisterValue::LOFF_STATP(v) => v.0,
            RegisterValue::LOFF_STATN(v) => v.0,
            RegisterValue::GPIO(v) => v.0,
            RegisterValue::PACE(v) => v.0,
            RegisterValue::RESP(v) => v.0,
            RegisterValue::CONFIG4(v) => v.0,
            RegisterValue::WCT1(v) => v.0,
            RegisterValue::WCT2(v) => v.0,
        }
    }

    /// The value of `register` that is the byte `raw`.
    pub fn from_raw(register: Register, raw: u8) -> (r: RegisterValue)
        ensures
            r == RegisterValue::of(register, raw),
    {
        match register {
            Register::ID => RegisterValue::ID(IdReg(raw)),
            Register::CONFIG1 => RegisterValue::CONFIG1(Config1Reg(raw)),
            Register::CONFIG2 => RegisterValue::CONFIG2(Config2Reg(raw)),
            Register::CONFIG3 => RegisterValue::CONFIG3(Config3Reg(raw)),
            Register::LOFF => RegisterValue::LOFF(LOffReg(raw)),
            Register::CH1SET => RegisterValue::CH1SET(ChSetReg(raw)),
            Register::CH2SET => RegisterValue::CH2SET(ChSetReg(raw)),
            Register::CH3SET => RegisterValue::CH3SET(ChSetReg(raw)),
            Register::CH4SET => RegisterValue::CH4SET(ChSetReg(raw)),
            Register::CH5SET => RegisterValue::CH5SET(ChSetReg(raw)),
            Register::CH6SET => RegisterValue::CH6SET(ChSetReg(raw)),
            Register::CH7SET => RegisterValue::CH7SET(ChSetReg(raw)),
            Register::CH8SET => RegisterValue::CH8SET(ChSetReg(raw)),
            Register::RLD_SENSP => RegisterValue::RLD_SENSP(RldSensPReg(raw)),
            Register::RLD_SENSN => RegisterValue::RLD_SENSN(RldSensNReg(raw)),
            Register::LOFF_SENSP => RegisterValue::LOFF_SENSP(LOffSensPReg(raw)),
            Register::LOFF_SENSN => RegisterValue::LOFF_SENSN(LOffSensNReg(raw)),
            Register::LOFF_FLIP => RegisterValue::LOFF_FLIP(LoffFlipReg(raw)),
            Register::LOFF_STATP => RegisterValue::LOFF_STATP(LOffStatPReg(raw)),
            Register::LOFF_STATN => RegisterValue::LOFF_STATN(LOffStatNReg(raw)),
            Register::GPIO => RegisterValue::GPIO(GpioReg(raw)),
            Register::PACE => RegisterValue::PACE(PaceReg(raw)),
            Register::RESP => RegisterValue::RESP(RespReg(raw)),
            Register::CONFIG4 => RegisterValue::CONFIG4(Config4Reg(raw)),
            Register::WCT1 => RegisterValue::WCT1(Wct1Reg(raw)),
            Register::WCT2 => RegisterValue::WCT2(Wct2Reg(raw)),
        }
    }
}

} // verus!
