//! What the e-mails say, in English, Brazilian Portuguese and Spanish.
//! `{x}` marks a place to fill in.

use vstd::prelude::*;

verus! {

pub const VERIFY_SUBJECT: [&'static str; 3] = [
    "Confirm your email address on Setlyst",
    "Confirme seu e-mail no Setlyst",
    "Confirma tu correo en Setlyst",
];

pub const VERIFY_HEADING: [&'static str; 3] = [
    "Confirm your email address",
    "Confirme seu endereço de e-mail",
    "Confirma tu dirección de correo",
];

pub const VERIFY_BODY: [&'static str; 3] = [
    "Use the code below to confirm this email address for your Setlyst account. It is valid for {n} minutes.",
    "Use o código abaixo para confirmar este endereço de e-mail na sua conta do Setlyst. Ele é válido por {n} minutos.",
    "Usa el código a continuación para confirmar esta dirección de correo en tu cuenta de Setlyst. Es válido durante {n} minutos.",
];

pub const VERIFY_NOTE: [&'static str; 3] = [
    "If you did not request this code, you can ignore this message. No changes will be made to your account.",
    "Se você não solicitou este código, pode ignorar esta mensagem. Nenhuma alteração será feita na sua conta.",
    "Si no solicitaste este código, puedes ignorar este mensaje. No se realizará ningún cambio en tu cuenta.",
];

pub const RESET_SUBJECT: [&'static str; 3] = [
    "Reset your Setlyst password",
    "Redefinição de senha do Setlyst",
    "Restablecimiento de contraseña de Setlyst",
];

pub const RESET_HEADING: [&'static str; 3] = [
    "Reset your password",
    "Redefina sua senha",
    "Restablece tu contraseña",
];

pub const RESET_BODY: [&'static str; 3] = [
    "We received a request to reset the password of your Setlyst account. Use the code below to choose a new password. It is valid for {n} minutes.",
    "Recebemos um pedido para redefinir a senha da sua conta do Setlyst. Use o código abaixo para criar uma nova senha. Ele é válido por {n} minutos.",
    "Recibimos una solicitud para restablecer la contraseña de tu cuenta de Setlyst. Usa el código a continuación para crear una nueva contraseña. Es válido durante {n} minutos.",
];

pub const RESET_NOTE: [&'static str; 3] = [
    "If you did not make this request, ignore this message. Your current password stays in place, and nobody can access your account without this code.",
    "Se você não fez este pedido, ignore esta mensagem. Sua senha atual continua valendo e ninguém terá acesso à sua conta sem este código.",
    "Si no hiciste esta solicitud, ignora este mensaje. Tu contraseña actual sigue vigente y nadie podrá acceder a tu cuenta sin este código.",
];

pub const CHANGE_SUBJECT: [&'static str; 3] = [
    "Confirm your new email on Setlyst",
    "Confirme seu novo e-mail no Setlyst",
    "Confirma tu nuevo correo en Setlyst",
];

pub const CHANGE_HEADING: [&'static str; 3] = [
    "Confirm your new email address",
    "Confirme seu novo endereço de e-mail",
    "Confirma tu nueva dirección de correo",
];

pub const CHANGE_BODY: [&'static str; 3] = [
    "A request was made to change the email address of the Setlyst account {u} to this address. Use the code below to confirm. It is valid for {n} minutes.",
    "Foi solicitada a alteração do e-mail da conta {u} no Setlyst para este endereço. Use o código abaixo para confirmar. Ele é válido por {n} minutos.",
    "Se solicitó cambiar el correo de la cuenta {u} de Setlyst a esta dirección. Usa el código a continuación para confirmar. Es válido durante {n} minutos.",
];

pub const CHANGE_NOTE: [&'static str; 3] = [
    "If you do not recognize this request, ignore this message. The account email will not change.",
    "Se você não reconhece este pedido, ignore esta mensagem. O e-mail da conta não será alterado.",
    "Si no reconoces esta solicitud, ignora este mensaje. El correo de la cuenta no cambiará.",
];

pub const PASSWORD_SUBJECT: [&'static str; 3] = [
    "Your Setlyst password was changed",
    "Sua senha do Setlyst foi alterada",
    "Se cambió tu contraseña de Setlyst",
];

pub const PASSWORD_HEADING: [&'static str; 3] = [
    "Password changed",
    "Senha alterada",
    "Contraseña cambiada",
];

pub const PASSWORD_BODY: [&'static str; 3] = [
    "The password of your Setlyst account was changed and all open sessions were signed out. To continue, sign in again with the new password.",
    "A senha da sua conta do Setlyst foi alterada e todas as sessões abertas foram encerradas. Para continuar, entre novamente com a nova senha.",
    "La contraseña de tu cuenta de Setlyst se cambió y se cerraron todas las sesiones abiertas. Para continuar, inicia sesión de nuevo con la nueva contraseña.",
];

pub const PASSWORD_SIGN_IN: [&'static str; 3] = [
    "Sign in",
    "Entrar",
    "Iniciar sesión",
];

pub const PASSWORD_NOTE: [&'static str; 3] = [
    "If this was not you, reset your password right away from the sign-in page and contact support.",
    "Se não foi você, redefina sua senha imediatamente pela página de acesso e entre em contato com o suporte.",
    "Si no fuiste tú, restablece tu contraseña de inmediato desde la página de acceso y contacta con soporte.",
];

pub const TWO_FACTOR_ON_SUBJECT: [&'static str; 3] = [
    "Two-step verification is now on",
    "A verificação em duas etapas foi ativada",
    "La verificación en dos pasos está activada",
];

pub const TWO_FACTOR_ON_HEADING: [&'static str; 3] = [
    "Two-step verification enabled",
    "Verificação em duas etapas ativada",
    "Verificación en dos pasos activada",
];

pub const TWO_FACTOR_ON_BODY: [&'static str; 3] = [
    "From now on, in addition to your password, Setlyst will ask for a code from your authenticator app to sign in to the account {u}.",
    "A partir de agora, além da senha, o Setlyst pedirá um código do seu aplicativo autenticador para entrar na conta {u}.",
    "A partir de ahora, además de la contraseña, Setlyst pedirá un código de tu aplicación de autenticación para iniciar sesión en la cuenta {u}.",
];

pub const TWO_FACTOR_ON_CODES: [&'static str; 3] = [
    "Keep your recovery codes in a safe place. They let you sign in if you lose access to the app.",
    "Guarde os códigos de recuperação em um local seguro. Eles permitem entrar caso você perca o acesso ao aplicativo.",
    "Guarda los códigos de recuperación en un lugar seguro. Te permiten iniciar sesión si pierdes el acceso a la aplicación.",
];

pub const TWO_FACTOR_ON_NOTE: [&'static str; 3] = [
    "If this was not you, sign in, reset your password and review your security settings.",
    "Se não foi você, entre na sua conta, redefina a senha e revise as configurações de segurança.",
    "Si no fuiste tú, inicia sesión, restablece tu contraseña y revisa la configuración de seguridad.",
];

pub const TWO_FACTOR_OFF_SUBJECT: [&'static str; 3] = [
    "Two-step verification was turned off",
    "A verificação em duas etapas foi desativada",
    "Se desactivó la verificación en dos pasos",
];

pub const TWO_FACTOR_OFF_HEADING: [&'static str; 3] = [
    "Two-step verification disabled",
    "Verificação em duas etapas desativada",
    "Verificación en dos pasos desactivada",
];

pub const TWO_FACTOR_OFF_BODY: [&'static str; 3] = [
    "Two-step verification was turned off for the account {u}. Only your password is now required to sign in.",
    "A verificação em duas etapas foi desativada na conta {u}. Agora, apenas a senha é pedida para entrar.",
    "Se desactivó la verificación en dos pasos en la cuenta {u}. Ahora solo se pide la contraseña para iniciar sesión.",
];

pub const TWO_FACTOR_OFF_ADVICE: [&'static str; 3] = [
    "We recommend keeping this protection on. You can turn it on again under Settings, in the Security section.",
    "Recomendamos manter essa proteção ativa. Você pode ativá-la novamente em Configurações, na seção Segurança.",
    "Recomendamos mantener esta protección activa. Puedes activarla de nuevo en Configuración, en la sección Seguridad.",
];

pub const TWO_FACTOR_OFF_NOTE: [&'static str; 3] = [
    "If this was not you, reset your password right away and contact support.",
    "Se não foi você, redefina sua senha imediatamente e entre em contato com o suporte.",
    "Si no fuiste tú, restablece tu contraseña de inmediato y contacta con soporte.",
];

pub const EMAIL_CHANGED_SUBJECT: [&'static str; 3] = [
    "The email of your Setlyst account was changed",
    "O e-mail da sua conta do Setlyst foi alterado",
    "Se cambió el correo de tu cuenta de Setlyst",
];

pub const EMAIL_CHANGED_HEADING: [&'static str; 3] = [
    "Email address changed",
    "E-mail alterado",
    "Correo cambiado",
];

pub const EMAIL_CHANGED_BODY: [&'static str; 3] = [
    "The email address of the Setlyst account {u} was changed to {e}. Account messages will be sent to the new address from now on.",
    "O e-mail da conta {u} no Setlyst foi alterado para {e}. As mensagens da conta serão enviadas para o novo endereço a partir de agora.",
    "El correo de la cuenta {u} de Setlyst se cambió a {e}. Los mensajes de la cuenta se enviarán a la nueva dirección a partir de ahora.",
];

pub const EMAIL_CHANGED_NOTE: [&'static str; 3] = [
    "If this was not you, contact support as soon as possible by replying to this message.",
    "Se não foi você, entre em contato com o suporte o quanto antes respondendo a esta mensagem.",
    "Si no fuiste tú, contacta con soporte lo antes posible respondiendo a este mensaje.",
];

pub const DELETED_SUBJECT: [&'static str; 3] = [
    "Your Setlyst account was deleted",
    "Sua conta do Setlyst foi excluída",
    "Tu cuenta de Setlyst fue eliminada",
];

pub const DELETED_HEADING: [&'static str; 3] = [
    "Account deleted",
    "Conta excluída",
    "Cuenta eliminada",
];

pub const DELETED_BODY: [&'static str; 3] = [
    "As requested, your Setlyst account was deleted, along with your personal songs, setlists and gigs. Bands you were responsible for were handed over to another member.",
    "Conforme solicitado, sua conta do Setlyst foi excluída, junto com suas músicas, setlists e shows pessoais. As bandas pelas quais você era responsável foram transferidas para outro integrante.",
    "Como solicitaste, tu cuenta de Setlyst fue eliminada, junto con tus canciones, setlists y conciertos personales. Las bandas de las que eras responsable se transfirieron a otro integrante.",
];

pub const DELETED_THANKS: [&'static str; 3] = [
    "Thank you for using Setlyst. If you decide to come back, you will be welcome.",
    "Obrigado por ter usado o Setlyst. Se quiser voltar, será um prazer receber você novamente.",
    "Gracias por usar Setlyst. Si decides volver, será un placer recibirte de nuevo.",
];

pub const DELETED_NOTE: [&'static str; 3] = [
    "If you did not request this deletion, reply to this message.",
    "Se você não solicitou a exclusão, responda a esta mensagem.",
    "Si no solicitaste esta eliminación, responde a este mensaje.",
];

pub const OPEN_IN_SETLYST: [&'static str; 3] = [
    "Open in Setlyst",
    "Abrir no Setlyst",
    "Abrir en Setlyst",
];

pub const IMPORTANT_NOTICE: [&'static str; 3] = [
    "Important notice:",
    "Aviso importante:",
    "Aviso importante:",
];

pub const RELEASE_SUBJECT: [&'static str; 3] = [
    "What's new in Setlyst {v}",
    "Novidades do Setlyst: versão {v}",
    "Novedades de Setlyst: versión {v}",
];

pub const RELEASE_BODY: [&'static str; 3] = [
    "Version {v}, released on {d}.",
    "Versão {v}, lançada em {d}.",
    "Versión {v}, publicada el {d}.",
];

pub const RELEASE_SEE_ALL: [&'static str; 3] = [
    "See all updates",
    "Ver todas as novidades",
    "Ver todas las novedades",
];

pub const TRIAL_ENDING_SUBJECT: [&'static str; 3] = [
    "Your trial ends soon",
    "Seu período de teste termina em breve",
    "Tu periodo de prueba termina pronto",
];

pub const TRIAL_ENDING_HEADING: [&'static str; 3] = [
    "Your trial ends on {d}",
    "Seu período de teste termina em {d}",
    "Tu periodo de prueba termina el {d}",
];

pub const TRIAL_ENDING_BODY: [&'static str; 3] = [
    "The trial of the {p} plan on your Setlyst account ends on {d}. After that, the features exclusive to the plan are no longer available, but your songs, setlists and gigs stay saved.",
    "O período de teste do plano {p} na sua conta do Setlyst termina em {d}. Depois disso, os recursos exclusivos do plano deixam de estar disponíveis, mas suas músicas, setlists e shows continuam salvos.",
    "El periodo de prueba del plan {p} en tu cuenta de Setlyst termina el {d}. Después, las funciones exclusivas del plan dejarán de estar disponibles, pero tus canciones, setlists y conciertos seguirán guardados.",
];

pub const TRIAL_ENDING_CHOOSE: [&'static str; 3] = [
    "To keep every feature, choose a plan under Settings, in the Subscription section.",
    "Para continuar com todos os recursos, escolha um plano em Configurações, na seção Assinatura.",
    "Para mantener todas las funciones, elige un plan en Configuración, en la sección Suscripción.",
];

pub const SEE_PLANS: [&'static str; 3] = [
    "See plans",
    "Ver planos",
    "Ver planes",
];

pub const PLAN_TRIAL_STARTED: [&'static str; 3] = [
    "Your {p} plan trial has started and runs until {d}.",
    "Seu período de teste do plano {p} começou e vai até {d}.",
    "Comenzó tu periodo de prueba del plan {p} y dura hasta el {d}.",
];

pub const PLAN_EXPIRED: [&'static str; 3] = [
    "The {p} plan on your account has expired. Your songs, setlists and gigs stay saved.",
    "O plano {p} da sua conta expirou. Suas músicas, setlists e shows continuam salvos.",
    "El plan {p} de tu cuenta venció. Tus canciones, setlists y conciertos siguen guardados.",
];

pub const PLAN_REVOKED: [&'static str; 3] = [
    "The {p} plan was removed from your account. Your songs, setlists and gigs stay saved.",
    "O plano {p} foi removido da sua conta. Suas músicas, setlists e shows continuam salvos.",
    "Se retiró el plan {p} de tu cuenta. Tus canciones, setlists y conciertos siguen guardados.",
];

pub const PLAN_SUBSCRIBED: [&'static str; 3] = [
    "Your subscription to the {p} plan is active. The next charge is on {d}.",
    "Sua assinatura do plano {p} está ativa. A próxima cobrança será em {d}.",
    "Tu suscripción al plan {p} está activa. El próximo cobro será el {d}.",
];

pub const PLAN_CHANGED: [&'static str; 3] = [
    "Your subscription is now on the {p} plan. The next charge is on {d}.",
    "Sua assinatura agora é do plano {p}. A próxima cobrança será em {d}.",
    "Tu suscripción ahora es del plan {p}. El próximo cobro será el {d}.",
];

pub const PLAN_PAYMENT_FAILED: [&'static str; 3] = [
    "We couldn't charge your {p} plan subscription. Update your payment method under Settings, in the Subscription section, to keep your plan.",
    "Não conseguimos cobrar a assinatura do plano {p}. Atualize a forma de pagamento em Configurações, na seção Assinatura, para manter o seu plano.",
    "No pudimos cobrar la suscripción del plan {p}. Actualiza el método de pago en Configuración, en la sección Suscripción, para mantener tu plan.",
];

pub const PLAN_CANCEL_SCHEDULED: [&'static str; 3] = [
    "Your subscription was canceled. The {p} plan stays active until {d} and you won't be charged again.",
    "Sua assinatura foi cancelada. O plano {p} continua ativo até {d} e não haverá novas cobranças.",
    "Se canceló tu suscripción. El plan {p} sigue activo hasta el {d} y no habrá más cobros.",
];

pub const PLAN_CANCELED: [&'static str; 3] = [
    "Your subscription to the {p} plan has ended. Your songs, setlists and gigs stay saved.",
    "A assinatura do plano {p} foi encerrada. Suas músicas, setlists e shows continuam salvos.",
    "Terminó tu suscripción al plan {p}. Tus canciones, setlists y conciertos siguen guardados.",
];

pub const PLAN_UNTIL: [&'static str; 3] = [
    "Your account now has the {p} plan until {d}.",
    "Sua conta agora tem o plano {p} até {d}.",
    "Tu cuenta ahora tiene el plan {p} hasta el {d}.",
];

pub const PLAN_NOW: [&'static str; 3] = [
    "Your account now has the {p} plan.",
    "Sua conta agora tem o plano {p}.",
    "Tu cuenta ahora tiene el plan {p}.",
];

pub const SUBSCRIPTION_SUBJECT: [&'static str; 3] = [
    "Your Setlyst subscription was updated",
    "Sua assinatura do Setlyst foi atualizada",
    "Se actualizó tu suscripción de Setlyst",
];

pub const SUBSCRIPTION_HEADING: [&'static str; 3] = [
    "Subscription updated",
    "Assinatura atualizada",
    "Suscripción actualizada",
];

pub const VIEW_SUBSCRIPTION: [&'static str; 3] = [
    "View my subscription",
    "Ver minha assinatura",
    "Ver mi suscripción",
];

pub const CONFIRMED_AT_PRICE: [&'static str; 3] = [
    "Your subscription to the {p} plan is confirmed: {v}.",
    "Sua assinatura do plano {p} está confirmada: {v}.",
    "Tu suscripción al plan {p} está confirmada: {v}.",
];

pub const CONFIRMED_PLAIN: [&'static str; 3] = [
    "Your subscription to the {p} plan is confirmed.",
    "Sua assinatura do plano {p} está confirmada.",
    "Tu suscripción al plan {p} está confirmada.",
];

pub const CONFIRMED_TRIAL: [&'static str; 3] = [
    "Your trial continues until {d}; the first charge is made automatically on that date. We will email you 7 days before it. If you cancel before then, nothing is charged.",
    "O período de teste continua até {d}; a primeira cobrança é feita automaticamente nessa data. Avisaremos você por e-mail 7 dias antes. Se cancelar antes, nada será cobrado.",
    "El periodo de prueba continúa hasta el {d}; el primer cobro se hace automáticamente en esa fecha. Te avisaremos por correo 7 días antes. Si cancelas antes, no se cobra nada.",
];

pub const CONFIRMED_NEXT: [&'static str; 3] = [
    "The next charge is on {d}.",
    "A próxima cobrança será em {d}.",
    "El próximo cobro será el {d}.",
];

pub const CONFIRMED_RENEWAL: [&'static str; 3] = [
    "The subscription renews automatically at the current price. You can cancel at any time under Settings > Subscription: the plan stays active until the end of the period already paid and nothing more is charged.",
    "A assinatura renova automaticamente pelo preço vigente. Você pode cancelar quando quiser em Configurações › Assinatura: o plano continua ativo até o fim do período já pago e não há novas cobranças.",
    "La suscripción se renueva automáticamente al precio vigente. Puedes cancelarla cuando quieras en Configuración › Suscripción: el plan sigue activo hasta el final del periodo ya pagado y no hay más cobros.",
];

pub const CONFIRMED_TERMS: [&'static str; 3] = [
    "Subscription Terms (version {v}): {s}\nTerms of Use: {t}",
    "Termos de Assinatura (versão {v}): {s}\nTermos de Uso: {t}",
    "Términos de Suscripción (versión {v}): {s}\nTérminos de Uso: {t}",
];

pub const CONFIRMED_SUBJECT: [&'static str; 3] = [
    "Your Setlyst subscription is confirmed",
    "Sua assinatura do Setlyst está confirmada",
    "Tu suscripción de Setlyst está confirmada",
];

pub const CONFIRMED_HEADING: [&'static str; 3] = [
    "Subscription confirmed",
    "Assinatura confirmada",
    "Suscripción confirmada",
];

pub const CONFIRMED_NOTE: [&'static str; 3] = [
    "Keep this email: it confirms your subscription. Payment receipts are sent by Stripe, our payment processor.",
    "Guarde este e-mail: ele confirma a contratação. Os recibos de pagamento são enviados pelo Stripe, nosso processador de pagamentos.",
    "Guarda este correo: confirma la contratación. Los recibos de pago los envía Stripe, nuestro procesador de pagos.",
];

pub const FIRST_CHARGE_AT_PRICE: [&'static str; 3] = [
    "On {d} we will charge {v} for your {p} plan subscription to the card on file.",
    "Em {d} cobraremos {v} pela assinatura do plano {p} no cartão cadastrado.",
    "El {d} cobraremos {v} por la suscripción al plan {p} en la tarjeta registrada.",
];

pub const FIRST_CHARGE_PLAIN: [&'static str; 3] = [
    "On {d} we will make the first charge for your {p} plan subscription to the card on file.",
    "Em {d} faremos a primeira cobrança da assinatura do plano {p} no cartão cadastrado.",
    "El {d} haremos el primer cobro de la suscripción al plan {p} en la tarjeta registrada.",
];

pub const FIRST_CHARGE_SUBJECT: [&'static str; 3] = [
    "Your first Setlyst charge is on {d}",
    "Sua primeira cobrança do Setlyst será em {d}",
    "Tu primer cobro de Setlyst será el {d}",
];

pub const FIRST_CHARGE_HEADING: [&'static str; 3] = [
    "Your trial ends on {d}",
    "Seu período de teste termina em {d}",
    "Tu periodo de prueba termina el {d}",
];

pub const FIRST_CHARGE_AVOID: [&'static str; 3] = [
    "To avoid being charged, cancel before {d} under Settings > Subscription. If you cancel before that date, nothing is charged.",
    "Para não ser cobrado, cancele até {d} em Configurações › Assinatura. Se cancelar antes dessa data, nada será cobrado.",
    "Para no recibir el cobro, cancela antes del {d} en Configuración › Suscripción. Si cancelas antes de esa fecha, no se cobra nada.",
];

pub const RENEWAL_AT_PRICE: [&'static str; 3] = [
    "On {d} your yearly {p} plan subscription renews automatically and we will charge {v} to the card on file.",
    "Em {d} sua assinatura anual do plano {p} será renovada automaticamente e cobraremos {v} no cartão cadastrado.",
    "El {d} tu suscripción anual al plan {p} se renovará automáticamente y cobraremos {v} en la tarjeta registrada.",
];

pub const RENEWAL_PLAIN: [&'static str; 3] = [
    "On {d} your yearly {p} plan subscription renews automatically and is charged to the card on file.",
    "Em {d} sua assinatura anual do plano {p} será renovada automaticamente e cobrada no cartão cadastrado.",
    "El {d} tu suscripción anual al plan {p} se renovará automáticamente y se cobrará en la tarjeta registrada.",
];

pub const RENEWAL_SUBJECT: [&'static str; 3] = [
    "Your yearly Setlyst subscription renews on {d}",
    "Sua assinatura anual do Setlyst renova em {d}",
    "Tu suscripción anual de Setlyst se renueva el {d}",
];

pub const RENEWAL_HEADING: [&'static str; 3] = [
    "Upcoming renewal",
    "Renovação próxima",
    "Próxima renovación",
];

pub const RENEWAL_CANCEL: [&'static str; 3] = [
    "If you don't want to renew, cancel before that date under Settings > Subscription; the plan stays active until the end of the period already paid.",
    "Se não quiser renovar, cancele antes dessa data em Configurações › Assinatura; o plano continua ativo até o fim do período já pago.",
    "Si no quieres renovar, cancela antes de esa fecha en Configuración › Suscripción; el plan sigue activo hasta el final del periodo ya pagado.",
];

pub const ENDED_BY_STAFF: [&'static str; 3] = [
    "Your {p} plan subscription was ended by the Setlyst team and will not be charged again.",
    "A assinatura do plano {p} foi encerrada pela equipe do Setlyst e não haverá novas cobranças.",
    "El equipo de Setlyst terminó tu suscripción al plan {p} y no habrá más cobros.",
];

pub const ENDED_BY_REQUEST: [&'static str; 3] = [
    "We received your request to withdraw on {d}. Your {p} plan subscription has ended and will not be charged again.",
    "Recebemos seu pedido de desistência em {d}. A assinatura do plano {p} foi encerrada e não haverá novas cobranças.",
    "Recibimos tu solicitud de desistimiento el {d}. Tu suscripción al plan {p} terminó y no habrá más cobros.",
];

pub const REFUNDED: [&'static str; 3] = [
    "We refunded {v} to the card used for the purchase. How long it takes to show on your statement depends on the card issuer.",
    "Estornamos {v} no cartão usado na compra. O prazo para o estorno aparecer na fatura depende do emissor do cartão.",
    "Reembolsamos {v} en la tarjeta usada en la compra. El plazo para que aparezca en el extracto depende del emisor de la tarjeta.",
];

pub const NOTHING_REFUNDED: [&'static str; 3] = [
    "There was nothing to refund.",
    "Não havia valores a estornar.",
    "No había importes que reembolsar.",
];

pub const ENDED_STAFF_SUBJECT: [&'static str; 3] = [
    "Your Setlyst subscription was canceled and refunded",
    "Sua assinatura do Setlyst foi cancelada e estornada",
    "Tu suscripción de Setlyst fue cancelada y reembolsada",
];

pub const ENDED_SUBJECT: [&'static str; 3] = [
    "Your Setlyst withdrawal is confirmed",
    "Confirmação da desistência da sua assinatura do Setlyst",
    "Confirmación del desistimiento de tu suscripción de Setlyst",
];

pub const ENDED_HEADING: [&'static str; 3] = [
    "Subscription ended",
    "Assinatura encerrada",
    "Suscripción terminada",
];

pub const ENDED_NO_PLAN: [&'static str; 3] = [
    "Your account no longer has a plan; your songs, setlists and gigs stay saved.",
    "Sua conta passa a não ter plano; suas músicas, setlists e shows continuam salvos.",
    "Tu cuenta ya no tiene plan; tus canciones, setlists y conciertos siguen guardados.",
];

pub const ENDED_NOTE: [&'static str; 3] = [
    "If you have any questions, reply to this email.",
    "Se tiver dúvidas, responda a este e-mail.",
    "Si tienes dudas, responde a este correo.",
];

pub const DISPUTED_SUBJECT: [&'static str; 3] = [
    "Your Setlyst subscription was canceled after a payment dispute",
    "Sua assinatura do Setlyst foi cancelada após uma contestação",
    "Tu suscripción de Setlyst fue cancelada tras una disputa de pago",
];

pub const DISPUTED_HEADING: [&'static str; 3] = [
    "Payment disputed",
    "Pagamento contestado",
    "Pago disputado",
];

pub const DISPUTED_BODY: [&'static str; 3] = [
    "Your card issuer told us that a payment for your {p} plan subscription was disputed. The subscription was canceled and will not be charged again.",
    "A administradora do seu cartão nos informou uma contestação de um pagamento da assinatura do plano {p}. A assinatura foi cancelada e não haverá novas cobranças.",
    "El emisor de tu tarjeta nos informó una disputa de un pago de la suscripción al plan {p}. La suscripción fue cancelada y no habrá más cobros.",
];

pub const DISPUTED_SAVED: [&'static str; 3] = [
    "Your songs, setlists and gigs stay saved. If you don't recognize this dispute, reply to this email.",
    "Suas músicas, setlists e shows continuam salvos. Se você não reconhece essa contestação, responda a este e-mail.",
    "Tus canciones, setlists y conciertos siguen guardados. Si no reconoces esta disputa, responde a este correo.",
];

pub const PRICE_FROM_TO: [&'static str; 3] = [
    "From {d}, the {i} price of your {p} plan subscription changes from {o} to {n}.",
    "A partir de {d}, o preço {i} da sua assinatura do plano {p} passa de {o} para {n}.",
    "A partir del {d}, el precio {i} de tu suscripción al plan {p} pasa de {o} a {n}.",
];

pub const PRICE_TO: [&'static str; 3] = [
    "From {d}, the {i} price of your {p} plan subscription will be {n}.",
    "A partir de {d}, o preço {i} da sua assinatura do plano {p} passa a ser {n}.",
    "A partir del {d}, el precio {i} de tu suscripción al plan {p} será {n}.",
];

pub const PRICE_SUBJECT: [&'static str; 3] = [
    "The price of your Setlyst subscription is changing",
    "O preço da sua assinatura do Setlyst vai mudar",
    "El precio de tu suscripción de Setlyst va a cambiar",
];

pub const PRICE_HEADING: [&'static str; 3] = [
    "Price change",
    "Mudança de preço",
    "Cambio de precio",
];

pub const PRICE_APPLIES: [&'static str; 3] = [
    "The new price applies from your first renewal after that date. If you don't agree, you can cancel at any time under Settings > Subscription, with no fee; the plan stays active until the end of the period already paid.",
    "O novo preço vale a partir da primeira renovação após essa data. Se não concordar, você pode cancelar a qualquer momento em Configurações › Assinatura, sem multa; o plano continua ativo até o fim do período já pago.",
    "El nuevo precio se aplica desde tu primera renovación después de esa fecha. Si no estás de acuerdo, puedes cancelar en cualquier momento en Configuración › Suscripción, sin penalización; el plan sigue activo hasta el final del periodo ya pagado.",
];

pub const WELCOME_SUBJECT: [&'static str; 3] = [
    "Welcome to Setlyst",
    "Boas-vindas ao Setlyst",
    "Te damos la bienvenida a Setlyst",
];

pub const WELCOME_HEADING: [&'static str; 3] = [
    "Welcome to Setlyst, {u}",
    "Boas-vindas ao Setlyst, {u}",
    "Te damos la bienvenida a Setlyst, {u}",
];

pub const WELCOME_BODY: [&'static str; 3] = [
    "Your account is ready. With Setlyst you organize your repertoire, build setlists with key, tempo and song order, and use Live Mode on stage.",
    "Sua conta está pronta. Com o Setlyst você organiza o repertório, monta setlists com tom, andamento e ordem das músicas e usa o Modo Ao Vivo no palco.",
    "Tu cuenta está lista. Con Setlyst organizas tu repertorio, armas setlists con tono, tempo y orden de las canciones, y usas el Modo en vivo en el escenario.",
];

pub const WELCOME_START: [&'static str; 3] = [
    "To get started, add a few songs and build your first setlist. If you play in a band, invite the other members to share the repertoire.",
    "Para começar, cadastre algumas músicas e monte sua primeira setlist. Se você toca em banda, convide os outros integrantes para compartilhar o repertório.",
    "Para empezar, agrega algunas canciones y arma tu primera setlist. Si tocas en una banda, invita a los demás integrantes a compartir el repertorio.",
];

pub const WELCOME_OPEN: [&'static str; 3] = [
    "Open the dashboard",
    "Abrir o painel",
    "Abrir el panel",
];

pub const REAUTH_SUBJECT: [&'static str; 3] = [
    "Your Setlyst confirmation code",
    "Seu código de confirmação do Setlyst",
    "Tu código de confirmación de Setlyst",
];

pub const REAUTH_HEADING: [&'static str; 3] = [
    "Confirm it's you",
    "Confirme que é você",
    "Confirma que eres tú",
];

pub const REAUTH_BODY: [&'static str; 3] = [
    "Use the code below to confirm a sensitive change in your Setlyst account. It is valid for {n} minutes.",
    "Use o código abaixo para confirmar uma alteração sensível na sua conta do Setlyst. Ele é válido por {n} minutos.",
    "Usa el código a continuación para confirmar un cambio sensible en tu cuenta de Setlyst. Es válido durante {n} minutos.",
];

pub const YEARLY: [&'static str; 3] = [
    "yearly",
    "anual",
    "anual",
];

pub const MONTHLY: [&'static str; 3] = [
    "monthly",
    "mensal",
    "mensual",
];

pub const PER_YEAR: [&'static str; 3] = [
    "{v} per year",
    "{v} por ano",
    "{v} al año",
];

pub const PER_MONTH: [&'static str; 3] = [
    "{v} per month",
    "{v} por mês",
    "{v} al mes",
];

pub const WITHDRAWAL_RIGHT: [&'static str; 3] = [
    "Right of withdrawal: you may withdraw within 7 days of a charge for a full refund, with the \"Withdraw from subscription\" button under Settings > Subscription or by replying to this email.",
    "Direito de arrependimento: você pode desistir em até 7 dias da cobrança, com reembolso integral, pelo botão \"Desistir da assinatura\" em Configurações › Assinatura ou respondendo a este e-mail.",
    "Derecho de desistimiento: puedes desistir dentro de los 7 días posteriores a un cobro con reembolso total, con el botón \"Desistir de la suscripción\" en Configuración › Suscripción o respondiendo a este correo.",
];

pub const MANAGE_SUBSCRIPTION: [&'static str; 3] = [
    "Manage my subscription",
    "Gerenciar minha assinatura",
    "Gestionar mi suscripción",
];

pub const HELLO: [&'static str; 3] = [
    "Hello, {u}.",
    "Olá, {u}.",
    "Hola, {u}.",
];

pub const KIND_NEW: [&'static str; 3] = [
    "New",
    "Novo",
    "Nuevo",
];

pub const KIND_IMPROVED: [&'static str; 3] = [
    "Improved",
    "Melhoria",
    "Mejora",
];

pub const KIND_FIXED: [&'static str; 3] = [
    "Fixed",
    "Correção",
    "Corrección",
];

pub const KIND_SECURITY: [&'static str; 3] = [
    "Security",
    "Segurança",
    "Seguridad",
];

pub const KIND_UPDATE: [&'static str; 3] = [
    "Update",
    "Atualização",
    "Actualización",
];

pub const WHY_ADDRESS: [&'static str; 3] = [
    "You are receiving this email because this address was entered on a Setlyst account.",
    "Você recebe este e-mail porque este endereço foi informado em uma conta do Setlyst.",
    "Recibes este correo porque esta dirección se indicó en una cuenta de Setlyst.",
];

pub const WHY_ACCOUNT: [&'static str; 3] = [
    "You are receiving this email because you have a Setlyst account.",
    "Você recebe este e-mail porque tem uma conta no Setlyst.",
    "Recibes este correo porque tienes una cuenta en Setlyst.",
];

pub const WHY_SECURITY: [&'static str; 3] = [
    "You are receiving this email because it concerns the security of your Setlyst account. Security notices are always sent.",
    "Você recebe este e-mail porque ele trata da segurança da sua conta no Setlyst. Avisos de segurança são sempre enviados.",
    "Recibes este correo porque trata sobre la seguridad de tu cuenta en Setlyst. Los avisos de seguridad siempre se envían.",
];

pub const WHY_DELETED: [&'static str; 3] = [
    "You are receiving this email because your Setlyst account was deleted.",
    "Você recebe este e-mail porque a sua conta no Setlyst foi excluída.",
    "Recibes este correo porque tu cuenta en Setlyst fue eliminada.",
];

pub const WHY_CRITICAL: [&'static str; 3] = [
    "You are receiving this email because it is an important notice about the Setlyst service.",
    "Você recebe este e-mail porque ele é um aviso importante sobre o serviço Setlyst.",
    "Recibes este correo porque es un aviso importante sobre el servicio Setlyst.",
];

pub const WHY_BILLING: [&'static str; 3] = [
    "You are receiving this email because it concerns your Setlyst subscription. Billing notices are always sent.",
    "Você recebe este e-mail porque ele trata da sua assinatura no Setlyst. Avisos de cobrança são sempre enviados.",
    "Recibes este correo porque trata sobre tu suscripción en Setlyst. Los avisos de cobro siempre se envían.",
];

pub const CATEGORY_ACCOUNT: [&'static str; 3] = [
    "account",
    "conta",
    "cuenta",
];

pub const CATEGORY_BANDS: [&'static str; 3] = [
    "band",
    "bandas",
    "bandas",
];

pub const CATEGORY_ANNOUNCEMENTS: [&'static str; 3] = [
    "announcement",
    "avisos",
    "avisos",
];

pub const CATEGORY_PRODUCT_UPDATES: [&'static str; 3] = [
    "product update",
    "novidades",
    "novedades",
];

pub const CATEGORY_MARKETING: [&'static str; 3] = [
    "offer",
    "ofertas",
    "ofertas",
];

pub const CATEGORY_SECURITY: [&'static str; 3] = [
    "security",
    "segurança",
    "seguridad",
];

pub const WHY_PREFERENCE: [&'static str; 3] = [
    "You are receiving this email because you turned on {c} emails in your communication preferences.",
    "Você recebe este e-mail porque ativou os e-mails de {c} nas preferências de comunicação.",
    "Recibes este correo porque activaste los correos de {c} en tus preferencias de comunicación.",
];

pub const DONT_WANT: [&'static str; 3] = [
    "Don't want these emails?",
    "Não quer mais receber estes e-mails?",
    "¿No quieres recibir estos correos?",
];

pub const UNSUBSCRIBE: [&'static str; 3] = [
    "Unsubscribe",
    "Cancelar inscrição",
    "Cancelar suscripción",
];

pub const TERMS_OF_USE: [&'static str; 3] = [
    "Terms of Use",
    "Termos de Uso",
    "Términos de Uso",
];

pub const PRIVACY_POLICY: [&'static str; 3] = [
    "Privacy Policy",
    "Política de Privacidade",
    "Política de Privacidad",
];

pub const SECURITY_HINT: [&'static str; 3] = [
    "If this was not you, secure your account now: change your password (or reset it from the sign-in page), sign out everywhere and turn on two-step verification in the security settings.",
    "Se não foi você, proteja sua conta agora: altere sua senha (ou redefina pela página de acesso), encerre todas as sessões e ative a verificação em duas etapas nas configurações de segurança.",
    "Si no fuiste tú, protege tu cuenta ahora: cambia tu contraseña (o restablécela desde la página de acceso), cierra todas las sesiones y activa la verificación en dos pasos en la configuración de seguridad.",
];

pub const NOTICE_CHANGE_SUBJECT: [&'static str; 3] = [
    "A change of your Setlyst email was requested",
    "Foi solicitada a troca do seu e-mail no Setlyst",
    "Se solicitó cambiar tu correo en Setlyst",
];

pub const NOTICE_CHANGE_HEADING: [&'static str; 3] = [
    "Email change requested",
    "Troca de e-mail solicitada",
    "Cambio de correo solicitado",
];

pub const NOTICE_CHANGE_BODY: [&'static str; 3] = [
    "Someone signed in to the account {u} asked to change its email address to {d}. The change only happens once the code sent to the new address is confirmed.",
    "Alguém conectado à conta {u} pediu para trocar o endereço de e-mail para {d}. A troca só acontece depois que o código enviado ao novo endereço for confirmado.",
    "Alguien con sesión en la cuenta {u} pidió cambiar su dirección de correo a {d}. El cambio solo ocurre cuando se confirme el código enviado a la nueva dirección.",
];

pub const NOTICE_IN_USE_SUBJECT: [&'static str; 3] = [
    "Someone tried to use your email on Setlyst",
    "Alguém tentou usar seu e-mail no Setlyst",
    "Alguien intentó usar tu correo en Setlyst",
];

pub const NOTICE_IN_USE_HEADING: [&'static str; 3] = [
    "Your email is already in use",
    "Seu e-mail já está em uso",
    "Tu correo ya está en uso",
];

pub const NOTICE_IN_USE_BODY: [&'static str; 3] = [
    "Someone asked to use this email address for another Setlyst account ({u}). It already belongs to an account, so nothing was changed.",
    "Alguém pediu para usar este endereço de e-mail em outra conta do Setlyst ({u}). Ele já pertence a uma conta, então nada foi alterado.",
    "Alguien pidió usar esta dirección de correo en otra cuenta de Setlyst ({u}). Ya pertenece a una cuenta, así que no se cambió nada.",
];

pub const NOTICE_LINKED_SUBJECT: [&'static str; 3] = [
    "Google sign-in was linked to your Setlyst account",
    "O acesso com Google foi vinculado à sua conta do Setlyst",
    "Se vinculó el acceso con Google a tu cuenta de Setlyst",
];

pub const NOTICE_LINKED_HEADING: [&'static str; 3] = [
    "Google account linked",
    "Conta Google vinculada",
    "Cuenta de Google vinculada",
];

pub const NOTICE_LINKED_BODY: [&'static str; 3] = [
    "The Google account {d} can now be used to sign in to the Setlyst account {u}.",
    "A conta Google {d} agora pode ser usada para entrar na conta {u} do Setlyst.",
    "La cuenta de Google {d} ahora puede usarse para iniciar sesión en la cuenta {u} de Setlyst.",
];

pub const NOTICE_UNLINKED_SUBJECT: [&'static str; 3] = [
    "Google sign-in was removed from your Setlyst account",
    "O acesso com Google foi removido da sua conta do Setlyst",
    "Se quitó el acceso con Google de tu cuenta de Setlyst",
];

pub const NOTICE_UNLINKED_HEADING: [&'static str; 3] = [
    "Google account unlinked",
    "Conta Google desvinculada",
    "Cuenta de Google desvinculada",
];

pub const NOTICE_UNLINKED_BODY: [&'static str; 3] = [
    "Google can no longer be used to sign in to the Setlyst account {u}.",
    "O Google não pode mais ser usado para entrar na conta {u} do Setlyst.",
    "Google ya no puede usarse para iniciar sesión en la cuenta {u} de Setlyst.",
];

pub const NOTICE_STAFF_RESET_SUBJECT: [&'static str; 3] = [
    "Setlyst support set a new password for your account",
    "O suporte do Setlyst definiu uma nova senha para sua conta",
    "El soporte de Setlyst definió una nueva contraseña para tu cuenta",
];

pub const NOTICE_STAFF_RESET_HEADING: [&'static str; 3] = [
    "Password reset by support",
    "Senha redefinida pelo suporte",
    "Contraseña restablecida por soporte",
];

pub const NOTICE_STAFF_RESET_BODY: [&'static str; 3] = [
    "A member of the Setlyst team set a temporary password for the account {u} and signed out every session. Sign in with the password you received from support and choose a new one.",
    "Um membro da equipe do Setlyst definiu uma senha temporária para a conta {u} e encerrou todas as sessões. Entre com a senha que você recebeu do suporte e escolha uma nova.",
    "Un miembro del equipo de Setlyst definió una contraseña temporal para la cuenta {u} y cerró todas las sesiones. Inicia sesión con la contraseña que recibiste del soporte y elige una nueva.",
];

pub const NOTICE_STAFF_EMAIL_SUBJECT: [&'static str; 3] = [
    "Setlyst support changed your account email",
    "O suporte do Setlyst alterou o e-mail da sua conta",
    "El soporte de Setlyst cambió el correo de tu cuenta",
];

pub const NOTICE_STAFF_EMAIL_HEADING: [&'static str; 3] = [
    "Email changed by support",
    "E-mail alterado pelo suporte",
    "Correo cambiado por soporte",
];

pub const NOTICE_STAFF_EMAIL_BODY: [&'static str; 3] = [
    "A member of the Setlyst team changed the email address of the account {u} to {d}. Messages about the account now go to the new address.",
    "Um membro da equipe do Setlyst alterou o endereço de e-mail da conta {u} para {d}. As mensagens sobre a conta agora vão para o novo endereço.",
    "Un miembro del equipo de Setlyst cambió la dirección de correo de la cuenta {u} a {d}. Los mensajes sobre la cuenta ahora van a la nueva dirección.",
];

pub const NOTICE_LOCKED_SUBJECT: [&'static str; 3] = [
    "Sign-in attempts to your Setlyst account were blocked",
    "Tentativas de acesso à sua conta do Setlyst foram bloqueadas",
    "Se bloquearon intentos de acceso a tu cuenta de Setlyst",
];

pub const NOTICE_LOCKED_HEADING: [&'static str; 3] = [
    "Sign-in attempts blocked",
    "Tentativas de acesso bloqueadas",
    "Intentos de acceso bloqueados",
];

pub const NOTICE_LOCKED_BODY: [&'static str; 3] = [
    "There were several failed attempts to sign in to the account {u}, so further attempts were blocked for a while. Your password was not changed. If you are locked out, reset your password from the sign-in page: that lifts the block.",
    "Houve várias tentativas de acesso sem sucesso à conta {u}, então novas tentativas foram bloqueadas por um tempo. Sua senha não foi alterada. Se você não conseguir entrar, redefina sua senha pela página de acesso: isso remove o bloqueio.",
    "Hubo varios intentos fallidos de iniciar sesión en la cuenta {u}, así que se bloquearon nuevos intentos por un tiempo. Tu contraseña no se cambió. Si no puedes entrar, restablece tu contraseña desde la página de acceso: eso quita el bloqueo.",
];

pub const NOTICE_SIGNED_OUT_SUBJECT: [&'static str; 3] = [
    "Your Setlyst account was signed out everywhere",
    "Sua conta do Setlyst foi desconectada de todos os dispositivos",
    "Se cerró la sesión de tu cuenta de Setlyst en todas partes",
];

pub const NOTICE_SIGNED_OUT_HEADING: [&'static str; 3] = [
    "Signed out everywhere",
    "Sessões encerradas",
    "Sesiones cerradas",
];

pub const NOTICE_SIGNED_OUT_BODY: [&'static str; 3] = [
    "Someone signed in to the account {u} typed the wrong password or confirmation code too many times, so every session was signed out as a precaution.",
    "Alguém conectado à conta {u} digitou a senha ou o código de confirmação errado muitas vezes, então todas as sessões foram encerradas por precaução.",
    "Alguien con sesión en la cuenta {u} escribió la contraseña o el código de confirmación incorrecto demasiadas veces, así que se cerraron todas las sesiones por precaución.",
];

pub const REVIEW_SECURITY: [&'static str; 3] = [
    "Review your security settings",
    "Revisar as configurações de segurança",
    "Revisar la configuración de seguridad",
];

pub const NOTICE_IN_USE_NOTE: [&'static str; 3] = [
    "If this was you, sign in to the account that already uses this address instead. If not, you can ignore this message.",
    "Se foi você, entre na conta que já usa este endereço. Se não foi, pode ignorar esta mensagem.",
    "Si fuiste tú, inicia sesión en la cuenta que ya usa esta dirección. Si no, puedes ignorar este mensaje.",
];

} // verus!
