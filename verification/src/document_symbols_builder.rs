use vstd::prelude::*;

verus! {

/// A builder for managing and assembling a collection of document symbols.
pub struct DocumentSymbolsBuilder<T> {
    document_symbols: Vec<T>,
}

impl<T> View for DocumentSymbolsBuilder<T> {
    type V = Seq<T>;

    /// The symbols pushed so far, in order.
    closed spec fn view(&self) -> Seq<T> {
        self.document_symbols@
    }
}

impl<T> DocumentSymbolsBuilder<T> {
    /// A builder with no symbols.
    pub fn new() -> (r: Self)
        ensures
            r@ == Seq::<T>::empty(),
    {
        DocumentSymbolsBuilder { document_symbols: Vec::new() }
    }

    /// Adds a document symbol to the builder.
    pub fn push_symbol(&mut self, document_symbol: T)
        ensures
            final(self)@ == old(self)@.push(document_symbol),
    {
        self.document_symbols.push(document_symbol);
    }

    /// Consumes the builder and returns the symbols, in the order pushed.
    pub fn finalize(self) -> (r: Vec<T>)
        ensures
            r@ == self@,
    {
        self.document_symbols
    }
}

impl<T> Default for DocumentSymbolsBuilder<T> {
    /// A builder with no symbols.
    fn default() -> (r: Self)
        ensures
            r@ == Seq::<T>::empty(),
    {
        DocumentSymbolsBuilder::new()
    }
}

/// What a builder holds after `symbols` are pushed, one by one, onto one
/// that holds `start` (each push appends, as [`DocumentSymbolsBuilder::push_symbol`] does).
pub open spec fn after_pushes<T>(start: Seq<T>, symbols: Seq<T>) -> Seq<T>
    decreases symbols.len(),
{
    if symbols.len() == 0 {
        start
    } else {
        after_pushes(start, symbols.drop_last()).push(symbols.last())
    }
}

/// A builder that starts empty and has `symbols` pushed one by one
/// finalizes to exactly `symbols`: every one, in push order, none dropped or
/// repeated. More generally, pushes append to what the builder held.
pub proof fn lemma_finalize_gives_all_pushed<T>(start: Seq<T>, symbols: Seq<T>)
    ensures
        after_pushes(start, symbols) == start + symbols,
        after_pushes(Seq::<T>::empty(), symbols) == symbols,
    decreases symbols.len(),
{
    if symbols.len() > 0 {
        lemma_finalize_gives_all_pushed(start, symbols.drop_last());
        lemma_finalize_gives_all_pushed(Seq::<T>::empty(), symbols.drop_last());
        assert(start + symbols =~= (start + symbols.drop_last()).push(symbols.last()));
        assert(symbols =~= symbols.drop_last().push(symbols.last()));
    } else {
        assert(start + symbols =~= start);
    }
}

} // verus!
