use vstd::prelude::*;

verus! {

/// A customer of the bank, as stored in the `clientes` collection.
pub struct Cliente {
    pub nome: String,
    /// Identifier of the customer.
    pub num: String,
    pub cpf: String,
    pub conta: String,
    /// Balance, kept as the decimal text of a number.
    pub saldo: String,
    pub pix: String,
}

impl Cliente {
    /// A field-by-field copy.
    pub fn clonar(&self) -> (r: Cliente)
        ensures
            r == *self,
    {
        Cliente {
            nome: self.nome.clone(),
            num: self.num.clone(),
            cpf: self.cpf.clone(),
            conta: self.conta.clone(),
            saldo: self.saldo.clone(),
            pix: self.pix.clone(),
        }
    }
}

/// What a third party needs to pay into a customer's account by TED/DOC.
pub struct DadosTed {
    pub nome: String,
    pub cpf: String,
    pub conta: String,
}

/// A customer's name and PIX key.
pub struct DadosPix {
    pub nome: String,
    pub chave_pix: String,
}

pub open spec fn dados_ted_de(c: Cliente) -> DadosTed {
    DadosTed { nome: c.nome, cpf: c.cpf, conta: c.conta }
}

pub open spec fn dados_pix_de(c: Cliente) -> DadosPix {
    DadosPix { nome: c.nome, chave_pix: c.pix }
}

impl DadosTed {
    /// The TED/DOC data of a customer: name, CPF and account.
    pub fn de_cliente(c: Cliente) -> (r: DadosTed)
        ensures
            r == dados_ted_de(c),
            r.nome == c.nome,
            r.cpf == c.cpf,
            r.conta == c.conta,
    {
        DadosTed { nome: c.nome, cpf: c.cpf, conta: c.conta }
    }
}

impl DadosPix {
    /// The PIX data of a customer: name and PIX key.
    pub fn de_cliente(c: Cliente) -> (r: DadosPix)
        ensures
            r == dados_pix_de(c),
            r.nome == c.nome,
            r.chave_pix == c.pix,
    {
        DadosPix { nome: c.nome, chave_pix: c.pix }
    }
}

/// The results that were read successfully, in the order they came.
pub open spec fn somente_lidos(resultados: Seq<Option<Cliente>>) -> Seq<Cliente>
    decreases resultados.len(),
{
    if resultados.len() == 0 {
        Seq::empty()
    } else {
        let anteriores = somente_lidos(resultados.drop_last());
        match resultados.last() {
            Some(c) => anteriores.push(c),
            None => anteriores,
        }
    }
}

/// Reading two listings one after the other keeps what each keeps, in order.
pub proof fn lei_lidos_concatenacao(s1: Seq<Option<Cliente>>, s2: Seq<Option<Cliente>>)
    ensures
        somente_lidos(s1 + s2) == somente_lidos(s1) + somente_lidos(s2),
    decreases s2.len(),
{
    if s2.len() == 0 {
        assert(s1 + s2 =~= s1);
        assert(somente_lidos(s1) + somente_lidos(s2) =~= somente_lidos(s1));
    } else {
        lei_lidos_concatenacao(s1, s2.drop_last());
        assert((s1 + s2).drop_last() =~= s1 + s2.drop_last());
        assert((s1 + s2).last() == s2.last());
        match s2.last() {
            Some(c) => {
                assert(somente_lidos(s1) + somente_lidos(s2.drop_last()).push(c) =~= (
                somente_lidos(s1) + somente_lidos(s2.drop_last())).push(c));
            },
            None => {},
        }
    }
}

/// A single result keeps its customer if it was read, and nothing if not.
pub proof fn lei_lidos_um(c: Cliente)
    ensures
        somente_lidos(seq![Some(c)]) == seq![c],
        somente_lidos(seq![None::<Cliente>]) == Seq::<Cliente>::empty(),
{
    reveal_with_fuel(somente_lidos, 2);
    assert(seq![Some(c)].drop_last() =~= Seq::<Option<Cliente>>::empty());
    assert(seq![None::<Cliente>].drop_last() =~= Seq::<Option<Cliente>>::empty());
    assert(Seq::<Cliente>::empty().push(c) =~= seq![c]);
}

/// No more customers are kept than results came in.
pub proof fn lei_lidos_tamanho(s: Seq<Option<Cliente>>)
    ensures
        somente_lidos(s).len() <= s.len(),
    decreases s.len(),
{
    if s.len() > 0 {
        lei_lidos_tamanho(s.drop_last());
    }
}

/// When every result was read, every customer is kept, in order.
pub proof fn lei_lidos_todos(s: Seq<Option<Cliente>>)
    requires
        forall|i: int| 0 <= i < s.len() ==> #[trigger] s[i] is Some,
    ensures
        somente_lidos(s).len() == s.len(),
        forall|i: int| 0 <= i < s.len() ==> #[trigger] somente_lidos(s)[i] == s[i]->Some_0,
    decreases s.len(),
{
    if s.len() > 0 {
        let t = s.drop_last();
        assert forall|i: int| 0 <= i < t.len() implies #[trigger] t[i] is Some by {
            assert(t[i] == s[i]);
        }
        lei_lidos_todos(t);
        assert(s[s.len() - 1] is Some);
        assert forall|i: int| 0 <= i < s.len() implies #[trigger] somente_lidos(s)[i]
            == s[i]->Some_0 by {
            if i < s.len() - 1 {
                assert(t[i] == s[i]);
            }
        }
    }
}

/// Keeps, in order, the customers that were read without error from a
/// listing of the collection (`None` stands for a document that failed to
/// decode).
pub fn clientes_validos(resultados: Vec<Option<Cliente>>) -> (r: Vec<Cliente>)
    ensures
        r@ == somente_lidos(resultados@),
        r@.len() <= resultados@.len(),
        (forall|i: int| 0 <= i < resultados@.len() ==> #[trigger] resultados@[i] is Some) ==> (
        r@.len() == resultados@.len() && forall|i: int|
            0 <= i < resultados@.len() ==> #[trigger] r@[i] == resultados@[i]->Some_0),
{
    proof {
        lei_lidos_tamanho(resultados@);
        if forall|i: int| 0 <= i < resultados@.len() ==> #[trigger] resultados@[i] is Some {
            lei_lidos_todos(resultados@);
        }
    }
    let mut r: Vec<Cliente> = Vec::new();
    let resto = resultados;
    let ghost todos = resto@;
    let mut i: usize = 0;
    let n: usize = resto.len();
    while i < n
        invariant
            n == todos.len(),
            i <= n,
            resto@ == todos,
            r@ == somente_lidos(todos.take(i as int)),
        decreases n - i,
    {
        proof {
            assert(todos.take(i as int + 1).drop_last() =~= todos.take(i as int));
        }
        match &resto[i] {
            Some(c) => {
                r.push(c.clonar());
            },
            None => {},
        }
        i = i + 1;
    }
    proof {
        assert(todos.take(n as int) =~= todos);
    }
    r
}

} // verus!
