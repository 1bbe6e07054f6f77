use core::marker::PhantomData;
use vstd::prelude::*;

verus! {

/// The one primitive call operation of a foreign function value, for one
/// return type and one tuple of argument types. The generated glue on the
/// foreign side implements it; every arity's `invoke` forwards to it.
pub trait CxxFunctionImpl<Ret, Args>: Sized {
    /// What holds of a call's result, given the arguments it was called with.
    open spec fn invoke_ensures(args: Args, ret: Ret) -> bool {
        true
    }

    /// Calls the function value behind `f` with the arguments bundled in `a`.
    fn __invoke<F>(f: &mut CxxFunction<Self, F>, a: Args) -> (r: Ret)
        ensures
            Self::invoke_ensures(a, r),
    ;
}

/// A foreign function value, seen through its call operation `I` and its
/// signature `F`. Its representation is never exposed: the value is only
/// handed back to `I`.
pub struct CxxFunction<I, F> {
    _impl: PhantomData<I>,
    _fn: PhantomData<F>,
}

/// The signature of a function value: its return type and the tuple of its
/// argument types.
pub struct FnSig<Ret, Args> {
    _ret: PhantomData<Ret>,
    _args: PhantomData<Args>,
}

impl<I, F> CxxFunction<I, F> {
    /// A handle for a function value that lives behind the call operation.
    pub fn new() -> (r: Self) {
        CxxFunction { _impl: PhantomData, _fn: PhantomData }
    }
}

impl<I, Out> CxxFunction<I, FnSig<Out, ()>> where I: CxxFunctionImpl<Out, ()> {
    /// Calls the function value with 0 arguments, passed on as one tuple.
    pub fn invoke(&mut self) -> (r: Out)
        ensures
            I::invoke_ensures((), r),
    {
        let args = ();
        I::__invoke(self, args)
    }
}

impl<I, Out, A0> CxxFunction<I, FnSig<Out, (A0,)>> where I: CxxFunctionImpl<Out, (A0,)> {
    /// Calls the function value with 1 argument, passed on as one tuple.
    pub fn invoke(&mut self, a_0: A0) -> (r: Out)
        ensures
            I::invoke_ensures((a_0,), r),
    {
        let args = (a_0,);
        I::__invoke(self, args)
    }
}

impl<I, Out, A0, A1> CxxFunction<I, FnSig<Out, (A0, A1)>> where I: CxxFunctionImpl<Out, (A0, A1)> {
    /// Calls the function value with 2 arguments, passed on as one tuple.
    pub fn invoke(&mut self, a_0: A0, a_1: A1) -> (r: Out)
        ensures
            I::invoke_ensures((a_0, a_1), r),
    {
        let args = (a_0, a_1);
        I::__invoke(self, args)
    }
}

impl<I, Out, A0, A1, A2> CxxFunction<I, FnSig<Out, (A0, A1, A2)>> where I: CxxFunctionImpl<Out, (A0, A1, A2)> {
    /// Calls the function value with 3 arguments, passed on as one tuple.
    pub fn invoke(&mut self, a_0: A0, a_1: A1, a_2: A2) -> (r: Out)
        ensures
            I::invoke_ensures((a_0, a_1, a_2), r),
    {
        let args = (a_0, a_1, a_2);
        I::__invoke(self, args)
    }
}

impl<I, Out, A0, A1, A2, A3> CxxFunction<I, FnSig<Out, (A0, A1, A2, A3)>> where I: CxxFunctionImpl<Out, (A0, A1, A2, A3)> {
    /// Calls the function value with 4 arguments, passed on as one tuple.
    pub fn invoke(&mut self, a_0: A0, a_1: A1, a_2: A2, a_3: A3) -> (r: Out)
        ensures
            I::invoke_ensures((a_0, a_1, a_2, a_3), r),
    {
        let args = (a_0, a_1, a_2, a_3);
        I::__invoke(self, args)
    }
}

impl<I, Out, A0, A1, A2, A3, A4> CxxFunction<I, FnSig<Out, (A0, A1, A2, A3, A4)>> where I: CxxFunctionImpl<Out, (A0, A1, A2, A3, A4)> {
    /// Calls the function value with 5 arguments, passed on as one tuple.
    pub fn invoke(&mut self, a_0: A0, a_1: A1, a_2: A2, a_3: A3, a_4: A4) -> (r: Out)
        ensures
            I::invoke_ensures((a_0, a_1, a_2, a_3, a_4), r),
    {
        let args = (a_0, a_1, a_2, a_3, a_4);
        I::__invoke(self, args)
    }
}

impl<I, Out, A0, A1, A2, A3, A4, A5> CxxFunction<I, FnSig<Out, (A0, A1, A2, A3, A4, A5)>> where I: CxxFunctionImpl<Out, (A0, A1, A2, A3, A4, A5)> {
    /// Calls the function value with 6 arguments, passed on as one tuple.
    pub fn invoke(&mut self, a_0: A0, a_1: A1, a_2: A2, a_3: A3, a_4: A4, a_5: A5) -> (r: Out)
        ensures
            I::invoke_ensures((a_0, a_1, a_2, a_3, a_4, a_5), r),
    {
        let args = (a_0, a_1, a_2, a_3, a_4, a_5);
        I::__invoke(self, args)
    }
}

impl<I, Out, A0, A1, A2, A3, A4, A5, A6> CxxFunction<I, FnSig<Out, (A0, A1, A2, A3, A4, A5, A6)>> where I: CxxFunctionImpl<Out, (A0, A1, A2, A3, A4, A5, A6)> {
    /// Calls the function value with 7 arguments, passed on as one tuple.
    pub fn invoke(&mut self, a_0: A0, a_1: A1, a_2: A2, a_3: A3, a_4: A4, a_5: A5, a_6: A6) -> (r: Out)
        ensures
            I::invoke_ensures((a_0, a_1, a_2, a_3, a_4, a_5, a_6), r),
    {
        let args = (a_0, a_1, a_2, a_3, a_4, a_5, a_6);
        I::__invoke(self, args)
    }
}

impl<I, Out, A0, A1, A2, A3, A4, A5, A6, A7> CxxFunction<I, FnSig<Out, (A0, A1, A2, A3, A4, A5, A6, A7)>> where I: CxxFunctionImpl<Out, (A0, A1, A2, A3, A4, A5, A6, A7)> {
    /// Calls the function value with 8 arguments, passed on as one tuple.
    pub fn invoke(&mut self, a_0: A0, a_1: A1, a_2: A2, a_3: A3, a_4: A4, a_5: A5, a_6: A6, a_7: A7) -> (r: Out)
        ensures
            I::invoke_ensures((a_0, a_1, a_2, a_3, a_4, a_5, a_6, a_7), r),
    {
        let args = (a_0, a_1, a_2, a_3, a_4, a_5, a_6, a_7);
        I::__invoke(self, args)
    }
}

impl<I, Out, A0, A1, A2, A3, A4, A5, A6, A7, A8> CxxFunction<I, FnSig<Out, (A0, A1, A2, A3, A4, A5, A6, A7, A8)>> where I: CxxFunctionImpl<Out, (A0, A1, A2, A3, A4, A5, A6, A7, A8)> {
    /// Calls the function value with 9 arguments, passed on as one tuple.
    pub fn invoke(&mut self, a_0: A0, a_1: A1, a_2: A2, a_3: A3, a_4: A4, a_5: A5, a_6: A6, a_7: A7, a_8: A8) -> (r: Out)
        ensures
            I::invoke_ensures((a_0, a_1, a_2, a_3, a_4, a_5, a_6, a_7, a_8), r),
    {
        let args = (a_0, a_1, a_2, a_3, a_4, a_5, a_6, a_7, a_8);
        I::__invoke(self, args)
    }
}

impl<I, Out, A0, A1, A2, A3, A4, A5, A6, A7, A8, A9> CxxFunction<I, FnSig<Out, (A0, A1, A2, A3, A4, A5, A6, A7, A8, A9)>> where I: CxxFunctionImpl<Out, (A0, A1, A2, A3, A4, A5, A6, A7, A8, A9)> {
    /// Calls the function value with 10 arguments, passed on as one tuple.
    pub fn invoke(&mut self, a_0: A0, a_1: A1, a_2: A2, a_3: A3, a_4: A4, a_5: A5, a_6: A6, a_7: A7, a_8: A8, a_9: A9) -> (r: Out)
        ensures
            I::invoke_ensures((a_0, a_1, a_2, a_3, a_4, a_5, a_6, a_7, a_8, a_9), r),
    {
        let args = (a_0, a_1, a_2, a_3, a_4, a_5, a_6, a_7, a_8, a_9);
        I::__invoke(self, args)
    }
}

} // verus!
